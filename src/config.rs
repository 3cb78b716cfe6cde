//! Settings read from the command-line tool's YAML configuration, and the
//! default place of a program's keypair file.
use vstd::prelude::*;
use vstd::string::*;

use crate::error::Error;

verus! {

#[verifier::external_type_specification]
#[verifier::external_body]
pub struct ExYaml(yaml_rust::Yaml);

#[verifier::external_type_specification]
#[verifier::external_body]
pub struct ExScanError(yaml_rust::ScanError);

/// The file name of `path` without its extension, as `Path::file_stem` gives it.
pub uninterp spec fn file_stem_of(path: Seq<char>) -> Option<Seq<char>>;

/// `path` with its file name replaced by `name`, as `Path::with_file_name` gives it.
pub uninterp spec fn with_file_name_of(path: Seq<char>, name: Seq<char>) -> Seq<char>;

/// `path` with its extension replaced by `ext`, as `Path::with_extension` gives it.
pub uninterp spec fn with_extension_of(path: Seq<char>, ext: Seq<char>) -> Seq<char>;

/// The documents of a YAML text, or the scanner's error, as
/// `YamlLoader::load_from_str` gives them.
pub uninterp spec fn yaml_documents_of(text: Seq<char>) -> Result<
    Seq<yaml_rust::Yaml>,
    yaml_rust::ScanError,
>;

/// The string stored under `key` in a YAML mapping, if there is one.
pub uninterp spec fn yaml_string_field_of(doc: yaml_rust::Yaml, key: Seq<char>) -> Option<
    Seq<char>,
>;

/// The decimal digits of `n`, most significant first.
pub open spec fn decimal(n: nat) -> Seq<char>
    decreases n,
{
    let digit = seq!['0', '1', '2', '3', '4', '5', '6', '7', '8', '9'][(n % 10) as int];
    if n < 10 {
        seq![digit]
    } else {
        decimal(n / 10).push(digit)
    }
}

/// Relies on `yaml_rust::YamlLoader::load_from_str`: the documents of a YAML
/// text, or the scanner's error.
#[verifier::external_body]
fn load_yaml(text: &str) -> (r: Result<Vec<yaml_rust::Yaml>, yaml_rust::ScanError>)
    ensures
        match r {
            Ok(docs) => yaml_documents_of(text@) == Ok::<Seq<yaml_rust::Yaml>, yaml_rust::ScanError>(
                docs@,
            ),
            Err(e) => yaml_documents_of(text@) == Err::<Seq<yaml_rust::Yaml>, yaml_rust::ScanError>(
                e,
            ),
        },
{
    yaml_rust::YamlLoader::load_from_str(text)
}

/// Relies on yaml_rust's `Yaml::as_str` of the node that indexing by `key`
/// gives: the string stored under `key` in a mapping, if there is one.
#[verifier::external_body]
fn string_field(doc: &yaml_rust::Yaml, key: &str) -> (r: Option<String>)
    ensures
        match r {
            Some(v) => yaml_string_field_of(*doc, key@) == Some(v@),
            None => yaml_string_field_of(*doc, key@) is None,
        },
{
    doc[key].as_str().map(|s| s.to_string())
}

/// Relies on `ToString` for `usize`, which writes the number in decimal.
#[verifier::external_body]
fn decimal_text(n: usize) -> (r: String)
    ensures
        r@ == decimal(n as nat),
{
    n.to_string()
}

/// Relies on `std::path::Path::file_stem`.
#[verifier::external_body]
fn file_stem(path: &str) -> (r: Option<String>)
    ensures
        match r {
            Some(s) => file_stem_of(path@) == Some(s@),
            None => file_stem_of(path@) is None,
        },
{
    std::path::Path::new(path).file_stem().map(|s| s.to_string_lossy().into_owned())
}

/// Relies on `std::path::Path::with_file_name`.
#[verifier::external_body]
fn with_file_name(path: &str, name: &str) -> (r: String)
    ensures
        r@ == with_file_name_of(path@, name@),
{
    std::path::Path::new(path).with_file_name(name).to_string_lossy().into_owned()
}

/// Relies on `std::path::Path::with_extension`, which panics on an
/// extension holding a path separator.
#[verifier::external_body]
fn with_extension(path: &str, ext: &str) -> (r: String)
    requires
        forall|i: int| 0 <= i < ext@.len() ==> ext@[i] != '/' && ext@[i] != '\\',
    ensures
        r@ == with_extension_of(path@, ext@),
{
    std::path::Path::new(path).with_extension(ext).to_string_lossy().into_owned()
}

/// The message for a configuration of `n` documents.
pub open spec fn document_count_message(n: nat) -> Seq<char> {
    "expected one yaml document got ("@ + decimal(n) + ")"@
}

/// What a configuration of documents `docs` parses to: its one document,
/// or an error that gives the count.
pub open spec fn single_document_result(
    docs: Seq<yaml_rust::Yaml>,
    r: Result<yaml_rust::Yaml, Error>,
) -> bool {
    if docs.len() == 1 {
        r == Ok::<yaml_rust::Yaml, Error>(docs[0])
    } else {
        r is Err && r->Err_0 is InvalidConfig && r->Err_0->InvalidConfig_0@
            == document_count_message(docs.len())
    }
}

/// Parses the configuration text; it must hold exactly one YAML document.
pub fn get_config(text: &str) -> (r: Result<yaml_rust::Yaml, Error>)
    ensures
        match yaml_documents_of(text@) {
            Err(e) => r is Err && r->Err_0 == Error::ConfigParseError(e),
            Ok(docs) => single_document_result(docs, r),
        },
{
    match load_yaml(text) {
        Err(e) => Err(Error::ConfigParseError(e)),
        Ok(docs) => single_document(docs),
    }
}

/// The one document of a configuration, or an error giving the count.
pub fn single_document(docs: Vec<yaml_rust::Yaml>) -> (r: Result<yaml_rust::Yaml, Error>)
    ensures
        single_document_result(docs@, r),
{
    let n = docs.len();
    if n == 1 {
        let mut docs = docs;
        Ok(docs.remove(0))
    } else {
        proof {
            reveal_strlit("expected one yaml document got (");
            reveal_strlit(")");
        }
        let msg = String::from_str("expected one yaml document got (").concat(
            decimal_text(n).as_str(),
        ).concat(")");
        assert(msg@ =~= document_count_message(docs@.len()));
        Err(Error::InvalidConfig(msg))
    }
}

/// A required string field: its value, or an error naming the field.
pub fn required_field(value: Option<String>, name: &str) -> (r: Result<String, Error>)
    ensures
        match value {
            Some(v) => r == Ok::<String, Error>(v),
            None => r is Err && r->Err_0 is InvalidConfig && r->Err_0->InvalidConfig_0@
                == "missing `"@ + name@ + "` field"@,
        },
{
    match value {
        Some(v) => Ok(v),
        None => {
            let msg = String::from_str("missing `").concat(name).concat("` field");
            Err(Error::InvalidConfig(msg))
        },
    }
}

/// The cluster's RPC address, field `json_rpc_url` of the configuration.
pub fn get_rpc_url(config: &yaml_rust::Yaml) -> (r: Result<String, Error>)
    ensures
        match yaml_string_field_of(*config, "json_rpc_url"@) {
            Some(v) => r is Ok && r->Ok_0@ == v,
            None => r is Err && r->Err_0 is InvalidConfig && r->Err_0->InvalidConfig_0@
                == "missing `json_rpc_url` field"@,
        },
{
    proof {
        reveal_strlit("json_rpc_url");
        reveal_strlit("missing `");
        reveal_strlit("` field");
        reveal_strlit("missing `json_rpc_url` field");
    }
    let r = required_field(string_field(config, "json_rpc_url"), "json_rpc_url");
    assert(r is Err ==> r->Err_0->InvalidConfig_0@ =~= "missing `json_rpc_url` field"@);
    r
}

/// The cluster's websocket address, field `websocket_url` of the configuration.
pub fn get_websocket_url(config: &yaml_rust::Yaml) -> (r: Result<String, Error>)
    ensures
        match yaml_string_field_of(*config, "websocket_url"@) {
            Some(v) => r is Ok && r->Ok_0@ == v,
            None => r is Err && r->Err_0 is InvalidConfig && r->Err_0->InvalidConfig_0@
                == "missing `websocket_url` field"@,
        },
{
    proof {
        reveal_strlit("websocket_url");
        reveal_strlit("missing `");
        reveal_strlit("` field");
        reveal_strlit("missing `websocket_url` field");
    }
    let r = required_field(string_field(config, "websocket_url"), "websocket_url");
    assert(r is Err ==> r->Err_0->InvalidConfig_0@ =~= "missing `websocket_url` field"@);
    r
}

/// The path of the payer's keypair, field `keypair_path` of the configuration.
pub fn get_keypair_path(config: &yaml_rust::Yaml) -> (r: Result<String, Error>)
    ensures
        match yaml_string_field_of(*config, "keypair_path"@) {
            Some(v) => r is Ok && r->Ok_0@ == v,
            None => r is Err && r->Err_0 is InvalidConfig && r->Err_0->InvalidConfig_0@
                == "missing `keypair_path` field"@,
        },
{
    proof {
        reveal_strlit("keypair_path");
        reveal_strlit("missing `");
        reveal_strlit("` field");
        reveal_strlit("missing `keypair_path` field");
    }
    let r = required_field(string_field(config, "keypair_path"), "keypair_path");
    assert(r is Err ==> r->Err_0->InvalidConfig_0@ =~= "missing `keypair_path` field"@);
    r
}

/// The keypair file kept beside a program: the program's file name without
/// its extension, with `-keypair.json` appended, in the same directory.
/// `None` when the path names no file.
pub fn get_keypair_file(program_path: &str) -> (r: Option<String>)
    ensures
        match file_stem_of(program_path@) {
            None => r is None,
            Some(stem) => r is Some && r->0@ == with_extension_of(
                with_file_name_of(program_path@, stem + "-keypair"@),
                "json"@,
            ),
        },
{
    match file_stem(program_path) {
        None => None,
        Some(stem) => {
            let name = stem.concat("-keypair");
            let renamed = with_file_name(program_path, name.as_str());
            proof {
                reveal_strlit("json");
            }
            Some(with_extension(renamed.as_str(), "json"))
        },
    }
}

/// The size to reserve for a program: the operator's size in kilobytes
/// (thousands of bytes) when given, else the program's own length.
pub fn max_data_len(program_size_kb: Option<usize>, program_len: usize) -> (r: Result<usize, Error>)
    ensures
        match program_size_kb {
            None => r == Ok::<usize, Error>(program_len),
            Some(kb) => if kb * 1000 <= usize::MAX {
                r == Ok::<usize, Error>((kb * 1000) as usize)
            } else {
                r is Err && r->Err_0 is ProgramSizeOverflow
            },
        },
{
    match program_size_kb {
        None => Ok(program_len),
        Some(kb) => match kb.checked_mul(1000) {
            Some(n) => Ok(n),
            None => Err(Error::ProgramSizeOverflow),
        },
    }
}

} // verus!

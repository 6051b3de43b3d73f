//! Rules for storing a generated module and judging `nix-instantiate`'s verdict.
use vstd::prelude::*;
use vstd::string::StringExecFns;
use vstd::string::to_string_from_display_ensures;

use crate::text::{decimal, lemma_decimal_value, push_decimal};

verus! {

#[verifier::external_type_specification]
#[verifier::external_body]
pub struct ExIoError(std::io::Error);

/// The directory that generated modules are written to.
pub const GENERATION_DIR: &'static str = "/tmp/chai-generation";

/// Why a generated module could not be stored or was rejected.
#[derive(Debug)]
pub enum ValidationError {
    /// Creating the directory or writing the file failed.
    Io(std::io::Error),
    /// `nix-instantiate --parse` rejected the module; holds its standard error.
    NixParse(String),
    /// `nix-instantiate` could not be started.
    NixNotFound,
}

impl From<std::io::Error> for ValidationError {
    fn from(e: std::io::Error) -> (res: ValidationError) {
        ValidationError::Io(e)
    }
}

impl vstd::std_specs::convert::FromSpecImpl<std::io::Error> for ValidationError {
    open spec fn obeys_from_spec() -> bool {
        true
    }

    open spec fn from_spec(e: std::io::Error) -> ValidationError {
        ValidationError::Io(e)
    }
}

impl ValidationError {
    /// The human-readable text of the error.
    pub fn message(&self) -> (res: String)
        ensures
            match self {
                ValidationError::Io(e) => exists|t: String|
                    to_string_from_display_ensures::<std::io::Error>(e, t)
                        && res@ == "I/O error: "@ + t@,
                ValidationError::NixParse(s) => res@ == "Nix parse error: "@ + s@,
                ValidationError::NixNotFound => res@ == "nix-instantiate binary not found"@,
            },
    {
        match self {
            ValidationError::Io(e) => {
                let detail = e.to_string();
                String::from_str("I/O error: ").concat(detail.as_str())
            },
            ValidationError::NixParse(s) => String::from_str("Nix parse error: ").concat(s.as_str()),
            ValidationError::NixNotFound => String::from_str("nix-instantiate binary not found"),
        }
    }
}

/// The file name under which a module is stored: `<name>-<seconds>.nix`.
pub open spec fn generation_file_name_of(name: Seq<char>, timestamp: nat) -> Seq<char> {
    name + "-"@ + decimal(timestamp) + ".nix"@
}

/// The file name for a module generated at `timestamp` (seconds since the
/// Unix epoch).
pub fn generation_file_name(name: &str, timestamp: u64) -> (res: String)
    ensures
        res@ == generation_file_name_of(name@, timestamp as nat),
{
    let mut out = String::from_str(name);
    out.append("-");
    push_decimal(&mut out, timestamp);
    out.append(".nix");
    out
}

/// Judges a stored module by the outcome of `nix-instantiate --parse`:
/// the path on success, [`ValidationError::NixParse`] with the checker's
/// standard error when it rejects the module, and
/// [`ValidationError::NixNotFound`] when it could not be run.
pub fn check_outcome(path: String, run: Option<(bool, String)>) -> (res: Result<String, ValidationError>)
    ensures
        match run {
            None => res matches Err(ValidationError::NixNotFound),
            Some((ok, stderr)) => if ok {
                res matches Ok(p) && p@ == path@
            } else {
                res matches Err(ValidationError::NixParse(e)) && e@ == stderr@
            },
        },
{
    match run {
        None => Err(ValidationError::NixNotFound),
        Some((ok, stderr)) => {
            if ok {
                Ok(path)
            } else {
                Err(ValidationError::NixParse(stderr))
            }
        },
    }
}

/// Modules generated in different seconds are stored under different names.
pub proof fn lemma_file_names_distinct(name: Seq<char>, t1: nat, t2: nat)
    requires
        t1 != t2,
    ensures
        generation_file_name_of(name, t1) != generation_file_name_of(name, t2),
{
    let f1 = generation_file_name_of(name, t1);
    let f2 = generation_file_name_of(name, t2);
    if f1 == f2 {
        let head = name + "-"@;
        let tail = ".nix"@;
        let d1 = decimal(t1);
        let d2 = decimal(t2);
        assert(f1 =~= head + d1 + tail);
        assert(f2 =~= head + d2 + tail);
        assert(d1.len() == d2.len());
        assert(d1 =~= f1.subrange(head.len() as int, (head.len() + d1.len()) as int));
        assert(d2 =~= f2.subrange(head.len() as int, (head.len() + d2.len()) as int));
        lemma_decimal_value(t1);
        lemma_decimal_value(t2);
    }
}

/// A module's file name begins with the given name and a hyphen, ends with
/// `.nix`, and holds the timestamp's decimal digits in between.
pub proof fn lemma_file_name_shape(name: Seq<char>, timestamp: nat)
    ensures
        ({
            let f = generation_file_name_of(name, timestamp);
            &&& f.len() == name.len() + 1 + decimal(timestamp).len() + 4
            &&& f.subrange(0, name.len() as int) == name
            &&& f[name.len() as int] == '-'
            &&& f.subrange((name.len() + 1) as int, (name.len() + 1 + decimal(timestamp).len()) as int) == decimal(timestamp)
            &&& f.subrange(f.len() - 4, f.len() as int) == ".nix"@
        }),
{
    reveal_strlit("-");
    reveal_strlit(".nix");
    let f = generation_file_name_of(name, timestamp);
    let d = decimal(timestamp);
    assert(f =~= name + "-"@ + d + ".nix"@);
    assert(f.subrange(0, name.len() as int) =~= name);
    assert(f.subrange((name.len() + 1) as int, (name.len() + 1 + d.len()) as int) =~= d);
    assert(f.subrange(f.len() - 4, f.len() as int) =~= ".nix"@);
}

} // verus!

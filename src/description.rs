//! The text form of a shared region's description, passed to a child as its last argument.
use vstd::prelude::*;

use libafl_bolts::shmem::{ShMemDescription, ShMemId};

verus! {

/// A shared region as another process finds it: the platform handle and the length in bytes.
#[derive(Clone, Copy, Debug, PartialEq, Eq)]
pub struct RegionDescription {
    pub handle: [u8; 20],
    pub length: usize,
}

/// Why a description could not be produced or read.
#[derive(Clone, Copy, Debug, PartialEq, Eq, Structural)]
pub enum DescriptionError {
    /// No argument is left beyond the program name.
    Missing,
    /// The last argument is no description.
    Malformed,
}

/// The text that `serde_json::to_string` makes of a description.
pub uninterp spec fn description_json(handle: Seq<u8>, length: usize) -> Seq<char>;

/// The handle and length that `serde_json::from_str` reads from a text, if any.
pub uninterp spec fn description_from_json(text: Seq<char>) -> Option<(Seq<u8>, usize)>;

/// Relies on `serde_json::to_string` of libafl_bolts' `ShMemDescription`: its derived
/// `Serialize` covers a `usize` and a `[u8; 20]` and no map, so serialization succeeds;
/// and its derived `Deserialize` reads the same handle and length back from the text.
#[verifier::external_body]
fn description_to_json(d: &RegionDescription) -> (r: Option<String>)
    ensures
        r is Some,
        r matches Some(t) ==> t@ == description_json(d.handle@, d.length),
        r matches Some(t) ==> description_from_json(t@) == Some((d.handle@, d.length)),
{
    let desc = ShMemDescription { size: d.length, id: ShMemId::from_array(&d.handle) };
    serde_json::to_string(&desc).ok()
}

/// Relies on `serde_json::from_str` into libafl_bolts' `ShMemDescription`: the handle and
/// length read from the text, when it holds a description.
#[verifier::external_body]
fn description_from_text(text: &str) -> (r: Option<RegionDescription>)
    ensures
        r is Some <==> description_from_json(text@) is Some,
        r matches Some(d) ==> description_from_json(text@) == Some((d.handle@, d.length)),
{
    match serde_json::from_str::<ShMemDescription>(text) {
        Ok(d) => Some(RegionDescription { handle: *d.id.as_array(), length: d.size }),
        Err(_) => None,
    }
}

/// The text form of a description; reading it back gives the same handle and length.
pub fn encode_description(d: &RegionDescription) -> (r: String)
    ensures
        r@ == description_json(d.handle@, d.length),
        description_from_json(r@) == Some((d.handle@, d.length)),
{
    match description_to_json(d) {
        Some(t) => t,
        None => String::new(),
    }
}

/// Reads a description from its text form.
pub fn parse_description(text: &str) -> (r: Result<RegionDescription, DescriptionError>)
    ensures
        description_from_json(text@) matches Some(p) ==> (r matches Ok(d) && (d.handle@,
            d.length) == p),
        description_from_json(text@) is None ==> r == Err::<RegionDescription, DescriptionError>(
            DescriptionError::Malformed,
        ),
{
    match description_from_text(text) {
        Some(d) => Ok(d),
        None => Err(DescriptionError::Malformed),
    }
}

/// Removes the description argument once it has been read: on success the last
/// argument is gone and the description returned; on failure the arguments are kept.
pub fn finish_description_arg(args: &mut Vec<String>, parsed: Option<RegionDescription>) -> (r:
    Result<RegionDescription, DescriptionError>)
    requires
        old(args)@.len() > 1,
    ensures
        parsed matches Some(d) ==> {
            &&& r == Ok::<RegionDescription, DescriptionError>(d)
            &&& final(args)@ == old(args)@.drop_last()
        },
        parsed is None ==> {
            &&& r == Err::<RegionDescription, DescriptionError>(DescriptionError::Malformed)
            &&& final(args)@ == old(args)@
        },
{
    match parsed {
        Some(d) => {
            args.pop();
            Ok(d)
        },
        None => Err(DescriptionError::Malformed),
    }
}

/// Takes the description from the last of a child's arguments, so that the wrapped
/// program sees only the arguments before it. The first argument is the program name.
pub fn strip_description_arg(args: &mut Vec<String>) -> (r: Result<
    RegionDescription,
    DescriptionError,
>)
    ensures
        old(args)@.len() <= 1 ==> {
            &&& r == Err::<RegionDescription, DescriptionError>(DescriptionError::Missing)
            &&& final(args)@ == old(args)@
        },
        old(args)@.len() > 1 ==> match description_from_json(old(args)@.last()@) {
            None => {
                &&& r == Err::<RegionDescription, DescriptionError>(DescriptionError::Malformed)
                &&& final(args)@ == old(args)@
            },
            Some(p) => {
                &&& r matches Ok(d) && (d.handle@, d.length) == p
                &&& final(args)@ == old(args)@.drop_last()
                &&& final(args)@.len() == old(args)@.len() - 1
            },
        },
{
    let n = args.len();
    if n <= 1 {
        return Err(DescriptionError::Missing);
    }
    let parsed = description_from_text(args[n - 1].as_str());
    finish_description_arg(args, parsed)
}

} // verus!

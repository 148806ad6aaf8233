//! What the npm registry answers for a package.

use vstd::prelude::*;
use vstd::slice::slice_to_vec;

verus! {

/// One published version.
#[derive(Debug, PartialEq, Eq)]
pub struct RegistryVersion {
    /// The version, without a `v` in front.
    pub version: String,
}

/// One dist-tag: a name that points at a version.
#[derive(Debug, PartialEq, Eq)]
pub struct DistTag {
    pub name: String,
    pub version: String,
}

/// The answer of the registry for one package.
#[derive(Debug, PartialEq, Eq)]
pub struct RegistryResponse {
    pub name: String,
    pub dist_tags: Vec<DistTag>,
    pub versions: Vec<RegistryVersion>,
}

/// The bytes of `body` that are no control characters (those above `0x1F`).
pub open spec fn without_control(body: Seq<u8>) -> Seq<u8> {
    body.filter(|byte: u8| byte > 0x1F)
}

/// What is decoded of an answer: for Yarn the body without its control
/// characters, else the body as it is.
pub open spec fn decodable(body: Seq<u8>, is_yarn: bool) -> Seq<u8> {
    if is_yarn {
        without_control(body)
    } else {
        body
    }
}

/// Calls `regex::bytes::Regex::new` on the pattern and `replace_all` with an
/// empty replacement on the body. The one pattern admitted is a class of the
/// code points 0 to 31, repeated: each of them is one byte, so every such
/// byte leaves and all others stay, in order.
#[verifier::external_body]
fn delete_matches(pattern: &str, body: &[u8]) -> (rest: Vec<u8>)
    requires
        pattern@ == "[\u{0000}-\u{001F}]+"@,
    ensures
        rest@ == without_control(body@),
{
    regex::bytes::Regex::new(pattern).unwrap().replace_all(body, &b""[..]).into_owned()
}

/// Prepares the body of an answer for decoding. The answers for Yarn's
/// packages may hold control characters, which no JSON decoder takes.
pub fn registry_body(body: &[u8], is_yarn: bool) -> (clean: Vec<u8>)
    ensures
        clean@ == decodable(body@, is_yarn),
{
    if !is_yarn {
        return slice_to_vec(body);
    }
    delete_matches("[\u{0000}-\u{001F}]+", body)
}

/// Cleaning leaves no control character behind.
pub proof fn lemma_without_control(body: Seq<u8>)
    ensures
        forall|i: int|
            0 <= i < without_control(body).len() ==> #[trigger] without_control(body)[i] > 0x1F,
{
    let keep = |byte: u8| byte > 0x1F;
    assert forall|i: int| 0 <= i < without_control(body).len() implies #[trigger] without_control(
        body,
    )[i] > 0x1F by {
        body.lemma_filter_pred(keep, i);
    }
}

/// Cleaning keeps an answer without control characters as it is.
pub proof fn lemma_clean_stays(body: Seq<u8>)
    requires
        forall|i: int| 0 <= i < body.len() ==> #[trigger] body[i] > 0x1F,
    ensures
        without_control(body) == body,
    decreases body.len(),
{
    reveal(Seq::filter);
    if body.len() > 0 {
        lemma_clean_stays(body.drop_last());
        assert(body.drop_last().push(body.last()) =~= body);
    }
}

} // verus!

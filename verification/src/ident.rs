//! Endpoint ids and tokens that the broker makes up itself.

use vstd::prelude::*;
use vstd::string::StringExecFns;

use crate::text::char_count;

verus! {

/// The least number of characters of a registered endpoint id.
pub const MIN_ID_CHARS: usize = 8;

/// The number of characters of an id or a token that the broker makes up.
pub const RANDOM_CHARS: usize = 21;

/// Whether `c` may stand in a random id: a letter or digit of ASCII, `_` or `-`.
pub open spec fn is_url_safe(c: char) -> bool {
    ||| ('0' <= c && c <= '9')
    ||| ('a' <= c && c <= 'z')
    ||| ('A' <= c && c <= 'Z')
    ||| c == '_'
    ||| c == '-'
}

/// Whether every character of `text` may stand in a random id.
pub open spec fn all_url_safe(text: Seq<char>) -> bool {
    forall|i: int| 0 <= i < text.len() ==> is_url_safe(#[trigger] text[i])
}

/// `nanoid::format` with the generator `nanoid::rngs::default` and the
/// alphabet `nanoid::alphabet::SAFE` draws `count` characters from that
/// alphabet at random. It does not return for a count of zero, which the
/// precondition leaves out. Which characters come is left open.
#[verifier::external_body]
fn random_chars(count: usize) -> (text: String)
    requires
        0 < count <= 0xffff,
    ensures
        text@.len() == count,
        all_url_safe(text@),
{
    nanoid::format(nanoid::rngs::default, &nanoid::alphabet::SAFE, count)
}

/// How many characters `id` lacks to be long enough for registration.
pub open spec fn missing_chars(id: Seq<char>) -> nat {
    if id.len() < MIN_ID_CHARS {
        (MIN_ID_CHARS - id.len()) as nat
    } else {
        0
    }
}

/// Whether `id` is what registration may make of `candidate`: the candidate
/// itself if it is long enough, else the candidate followed by just as many
/// url-safe characters as it lacks.
pub open spec fn completes(candidate: Seq<char>, id: Seq<char>) -> bool {
    &&& id.len() == candidate.len() + missing_chars(candidate)
    &&& id.subrange(0, candidate.len() as int) == candidate
    &&& all_url_safe(id.subrange(candidate.len() as int, id.len() as int))
}

/// A candidate that is long enough is completed by itself alone.
pub proof fn lemma_long_id_is_complete(candidate: Seq<char>, id: Seq<char>)
    requires
        candidate.len() >= MIN_ID_CHARS,
    ensures
        completes(candidate, id) <==> id == candidate,
{
    if completes(candidate, id) {
        assert(id =~= id.subrange(0, candidate.len() as int));
    }
    if id == candidate {
        assert(id.subrange(0, candidate.len() as int) =~= candidate);
    }
}

/// What completes a candidate has at least the least length and begins with
/// the candidate.
pub proof fn lemma_completed_id_keeps_prefix(candidate: Seq<char>, id: Seq<char>)
    requires
        completes(candidate, id),
    ensures
        id.len() >= MIN_ID_CHARS,
        id.len() >= candidate.len(),
        candidate.is_prefix_of(id),
{
    assert(forall|i: int|
        0 <= i < candidate.len() ==> id[i] == id.subrange(0, candidate.len() as int)[i]);
}

/// `candidate` followed by `filler`.
pub fn complete_with(candidate: String, filler: &str) -> (id: String)
    ensures
        id@ == candidate@ + filler@,
{
    candidate.concat(filler)
}

/// Makes `candidate` long enough for registration: a candidate of fewer than
/// eight characters gets random url-safe characters behind it until it has
/// eight; a longer one is returned as it is.
pub fn complete_id(candidate: String) -> (id: String)
    ensures
        completes(candidate@, id@),
{
    let have = char_count(candidate.as_str());
    if have < MIN_ID_CHARS {
        let filler = random_chars(MIN_ID_CHARS - have);
        let ghost prefix = candidate@;
        let id = complete_with(candidate, filler.as_str());
        assert(id@.subrange(0, prefix.len() as int) =~= prefix);
        assert(id@.subrange(prefix.len() as int, id@.len() as int) =~= filler@);
        id
    } else {
        assert(candidate@.subrange(0, candidate@.len() as int) =~= candidate@);
        candidate
    }
}

/// A random id or token of twenty-one url-safe characters.
pub fn random_id() -> (id: String)
    ensures
        id@.len() == RANDOM_CHARS,
        all_url_safe(id@),
{
    random_chars(RANDOM_CHARS)
}

} // verus!

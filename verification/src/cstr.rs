//! NUL-terminated byte strings as the SDK takes and hands them back.
use vstd::prelude::*;
use vstd::string::*;
use vstd::utf8::*;

use crate::error::{Error, NulError};

verus! {

/// `p` is where the text held in `s` ends: the first NUL byte of `s`,
/// or the length of `s` when it holds none.
pub open spec fn is_text_end(s: Seq<u8>, p: int) -> bool {
    &&& 0 <= p <= s.len()
    &&& forall|j: int| 0 <= j < p ==> s[j] != 0
    &&& p < s.len() ==> s[p] == 0
}

/// The index at which the text held in `s` ends.
pub open spec fn text_end(s: Seq<u8>) -> int {
    choose|p: int| is_text_end(s, p)
}

/// The bytes of `s` before its first NUL byte (all of `s` when it holds none).
pub open spec fn until_nul(s: Seq<u8>) -> Seq<u8> {
    s.take(text_end(s))
}

/// `s` holds a NUL byte.
pub open spec fn has_nul(s: Seq<u8>) -> bool {
    exists|i: int| 0 <= i < s.len() && s[i] == 0
}

/// The NUL-terminated form of `s`.
pub open spec fn terminated(s: Seq<u8>) -> Seq<u8> {
    s.push(0u8)
}

/// `e` reports that `s` cannot become a C string: it names the first NUL
/// byte of `s` and carries the bytes of `s`.
pub open spec fn is_nul_error_of(e: NulError, s: Seq<u8>) -> bool {
    &&& e.bytes@ == s
    &&& e.position < s.len()
    &&& is_text_end(s, e.position as int)
}

/// `r` is what converting the bytes `s` into a C string gives.
pub open spec fn is_c_string_result(r: Result<Vec<u8>, Error>, s: Seq<u8>) -> bool {
    &&& r is Ok <==> !has_nul(s)
    &&& r matches Ok(c) ==> c@ == terminated(s)
    &&& r matches Err(e) ==> (e matches Error::Nul(n) && is_nul_error_of(n, s))
}

/// There is one end of text in every byte sequence.
pub proof fn lemma_text_end_unique(s: Seq<u8>, p: int, q: int)
    requires
        is_text_end(s, p),
        is_text_end(s, q),
    ensures
        p == q,
{
    if p < q {
        assert(s[p] == 0);
    } else if q < p {
        assert(s[q] == 0);
    }
}

/// Every byte sequence has an end of text, and `text_end` names it.
pub proof fn lemma_text_end(s: Seq<u8>)
    ensures
        is_text_end(s, text_end(s)),
    decreases s.len(),
{
    if s.len() == 0 {
        assert(is_text_end(s, 0));
    } else if s[0] == 0 {
        assert(is_text_end(s, 0));
    } else {
        let rest = s.drop_first();
        lemma_text_end(rest);
        let q = text_end(rest);
        assert forall|j: int| 0 <= j < q + 1 implies s[j] != 0 by {
            if j > 0 {
                assert(s[j] == rest[j - 1]);
            }
        }
        if q + 1 < s.len() {
            assert(s[q + 1] == rest[q]);
        }
        assert(is_text_end(s, q + 1));
    }
}

/// Reading the text back out of a C string gives the bytes it was made from.
pub proof fn law_c_string_round_trip(s: Seq<u8>)
    requires
        !has_nul(s),
    ensures
        until_nul(terminated(s)) == s,
{
    let t = terminated(s);
    lemma_text_end(t);
    assert forall|j: int| 0 <= j < s.len() implies t[j] != 0 by {
        assert(t[j] == s[j]);
    }
    assert(is_text_end(t, s.len() as int));
    lemma_text_end_unique(t, text_end(t), s.len() as int);
    assert(t.take(s.len() as int) =~= s);
}

/// The text of a string without NUL characters, made into a C string, reads
/// back as that same string: the bytes before the terminator are valid UTF-8
/// and decode to it.
pub proof fn law_c_text_round_trip(s: Seq<char>)
    requires
        !has_nul(encode_utf8(s)),
    ensures
        until_nul(terminated(encode_utf8(s))) == encode_utf8(s),
        valid_utf8(until_nul(terminated(encode_utf8(s)))),
        decode_utf8(until_nul(terminated(encode_utf8(s)))) == s,
{
    law_c_string_round_trip(encode_utf8(s));
    encode_utf8_valid_utf8(s);
    encode_utf8_decode_utf8(s);
}

/// The index of the first NUL byte of `buf`, or its length when it holds none.
pub fn text_end_of(buf: &[u8]) -> (p: usize)
    ensures
        is_text_end(buf@, p as int),
        p as int == text_end(buf@),
{
    let mut i: usize = 0;
    while i < buf.len() && buf[i] != 0
        invariant
            0 <= i <= buf.len(),
            forall|j: int| 0 <= j < i ==> buf@[j] != 0,
        decreases buf.len() - i,
    {
        i = i + 1;
    }
    proof {
        assert(is_text_end(buf@, i as int));
        lemma_text_end(buf@);
        lemma_text_end_unique(buf@, i as int, text_end(buf@));
    }
    i
}

/// The bytes of `buf` before its first NUL byte.
pub fn bytes_until_nul(buf: &[u8]) -> (r: Vec<u8>)
    ensures
        r@ == until_nul(buf@),
{
    let end = text_end_of(buf);
    let mut out: Vec<u8> = Vec::new();
    let mut i: usize = 0;
    while i < end
        invariant
            end <= buf.len(),
            0 <= i <= end,
            out@ == buf@.take(i as int),
        decreases end - i,
    {
        out.push(buf[i]);
        i = i + 1;
        proof {
            assert(out@ =~= buf@.take(i as int));
        }
    }
    out
}

/// Converts bytes into a NUL-terminated C string; fails, naming the first NUL
/// byte, when the bytes already hold one.
pub fn c_string_from_bytes(bytes: &[u8]) -> (r: Result<Vec<u8>, NulError>)
    ensures
        r is Ok <==> !has_nul(bytes@),
        r matches Ok(c) ==> c@ == terminated(bytes@),
        r matches Err(e) ==> is_nul_error_of(e, bytes@),
{
    let end = text_end_of(bytes);
    if end < bytes.len() {
        let mut copy: Vec<u8> = Vec::new();
        let mut i: usize = 0;
        while i < bytes.len()
            invariant
                0 <= i <= bytes.len(),
                copy@ == bytes@.take(i as int),
            decreases bytes.len() - i,
        {
            copy.push(bytes[i]);
            i = i + 1;
            proof {
                assert(copy@ =~= bytes@.take(i as int));
            }
        }
        proof {
            assert(copy@ =~= bytes@);
            assert(bytes@[end as int] == 0);
        }
        Err(NulError { position: end, bytes: copy })
    } else {
        let mut out: Vec<u8> = Vec::new();
        let mut i: usize = 0;
        while i < bytes.len()
            invariant
                0 <= i <= bytes.len(),
                out@ == bytes@.take(i as int),
            decreases bytes.len() - i,
        {
            out.push(bytes[i]);
            i = i + 1;
            proof {
                assert(out@ =~= bytes@.take(i as int));
            }
        }
        out.push(0u8);
        proof {
            assert(out@ =~= terminated(bytes@));
            assert(!has_nul(bytes@)) by {
                if has_nul(bytes@) {
                    let k = choose|k: int| 0 <= k < bytes@.len() && bytes@[k] == 0;
                    assert(bytes@[k] != 0);
                }
            }
        }
        Ok(out)
    }
}

/// Converts a string into the NUL-terminated bytes of its UTF-8 encoding;
/// fails with `Error::Nul` when the string holds a NUL character.
pub fn c_string(s: &str) -> (r: Result<Vec<u8>, Error>)
    ensures
        is_c_string_result(r, s.spec_bytes()),
{
    let bytes = s.as_bytes();
    match c_string_from_bytes(bytes) {
        Ok(c) => Ok(c),
        Err(e) => Err(Error::Nul(e)),
    }
}

/// Converts an optional string as `c_string` does; `None` stays `None`.
pub fn optional_c_string(s: Option<&str>) -> (r: Result<Option<Vec<u8>>, Error>)
    ensures
        s is None ==> r == Ok::<Option<Vec<u8>>, Error>(None),
        s matches Some(t) ==> {
            &&& r is Ok <==> !has_nul(t.spec_bytes())
            &&& r matches Ok(c) ==> (c matches Some(v) && v@ == terminated(t.spec_bytes()))
            &&& r matches Err(e) ==> (e matches Error::Nul(n) && is_nul_error_of(n, t.spec_bytes()))
        },
{
    match s {
        None => Ok(None),
        Some(t) => {
            let c = c_string(t)?;
            Ok(Some(c))
        },
    }
}

} // verus!

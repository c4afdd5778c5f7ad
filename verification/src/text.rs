//! The string-view bridge: translation between optional owned host text
//! and the foreign NUL-terminated byte view.
//!
//! Both directions are specified against `vstd`'s UTF-8 model
//! (`encode_utf8` / `decode_utf8` / `valid_utf8`), so the round trip is a
//! provable fact rather than a convention.  Absent text is a zero-length
//! view, distinct from present empty text; text with an embedded NUL has
//! no C-string form and is rejected before any buffer is built.

use crate::errors::ConversionError;
use crate::foreign::ForeignString;
use vstd::prelude::*;
use vstd::slice::{slice_subrange, slice_to_vec};
use vstd::utf8::{decode_utf8, encode_utf8, valid_utf8};

verus! {

/// Index of the first NUL byte in `b`, or `b.len()` when none occurs.
pub open spec fn first_zero(b: Seq<u8>) -> int
    decreases b.len(),
{
    if b.len() == 0 {
        0
    } else if b[0] == 0 {
        0
    } else {
        1 + first_zero(b.drop_first())
    }
}

/// The bytes a C-string read of `b` yields: everything before the first
/// NUL terminator.
pub open spec fn cstr_prefix(b: Seq<u8>) -> Seq<u8> {
    b.take(first_zero(b))
}

/// `first_zero` is in range, scans over no NUL, and stops on one.
pub proof fn lemma_first_zero(b: Seq<u8>)
    ensures
        0 <= first_zero(b) <= b.len(),
        forall|j: int| 0 <= j < first_zero(b) ==> b[j] != 0,
        first_zero(b) < b.len() ==> b[first_zero(b)] == 0,
    decreases b.len(),
{
    if b.len() == 0 {
    } else if b[0] == 0 {
    } else {
        let rest = b.drop_first();
        lemma_first_zero(rest);
        assert forall|j: int| 0 <= j < first_zero(b) implies b[j] != 0 by {
            if j > 0 {
                assert(rest[j - 1] == b[j]);
            }
        }
        if first_zero(b) < b.len() {
            assert(rest[first_zero(b) - 1] == b[first_zero(b)]);
        }
    }
}

/// A position with no NUL before it and one at it (or the end) is
/// exactly `first_zero`.
pub proof fn lemma_first_zero_is(b: Seq<u8>, i: int)
    requires
        0 <= i <= b.len(),
        forall|j: int| 0 <= j < i ==> b[j] != 0,
        i < b.len() ==> b[i] == 0,
    ensures
        first_zero(b) == i,
{
    lemma_first_zero(b);
    let fz = first_zero(b);
    if fz < i {
        assert(b[fz] != 0);
        assert(b[fz] == 0);
    } else if fz > i {
        assert(b[i] != 0);
    }
}

/// View of optional owned text as an optional character sequence.
pub open spec fn opt_text_view(o: Option<String>) -> Option<Seq<char>> {
    match o {
        Some(s) => Some(s@),
        None => None,
    }
}

/// The optional text `o` has no C-string form: it is present and its
/// UTF-8 encoding contains an embedded NUL byte.
pub open spec fn text_has_nul(o: Option<Seq<char>>) -> bool {
    match o {
        Some(s) => encode_utf8(s).contains(0),
        None => false,
    }
}

/// The foreign view `fs` is the encoding of the optional text `o`:
/// absent text is a zero-length view; present text is its NUL-free UTF-8
/// bytes closed by a terminator, with `nbytes` counting the terminator.
pub open spec fn text_encodes(o: Option<Seq<char>>, fs: ForeignString) -> bool {
    match o {
        None => fs.nbytes == 0 && fs.data@.len() == 0,
        Some(s) => {
            &&& !encode_utf8(s).contains(0)
            &&& fs.data@ == encode_utf8(s).push(0)
            &&& fs.nbytes as int == encode_utf8(s).len() + 1
        },
    }
}

/// The optional text `o` is what decoding the foreign view `fs` yields:
/// a zero-length view decodes to absent text; any other view is read as
/// a C string whose bytes must be valid UTF-8.
pub open spec fn text_decoded(fs: ForeignString, o: Option<Seq<char>>) -> bool {
    if fs.nbytes == 0 {
        o is None
    } else {
        &&& valid_utf8(cstr_prefix(fs.data@))
        &&& o == Some(decode_utf8(cstr_prefix(fs.data@)))
    }
}

/// Decoding `fs` succeeds: the view is absent or its C-string bytes are
/// valid UTF-8.
pub open spec fn text_decodable(fs: ForeignString) -> bool {
    fs.nbytes == 0 || valid_utf8(cstr_prefix(fs.data@))
}

/// Relies on `str::from_utf8`: it succeeds exactly on the byte sequences
/// that are valid UTF-8 and yields the text they encode, as `vstd`'s
/// `valid_utf8` / `decode_utf8` specify that encoding; the copy into an
/// owned `String` keeps the characters.
#[verifier::external_body]
fn utf8_to_text(b: &Vec<u8>) -> (r: Option<String>)
    ensures
        match r {
            Some(s) => valid_utf8(b@) && s@ == decode_utf8(b@),
            None => !valid_utf8(b@),
        },
{
    match std::str::from_utf8(b.as_slice()) {
        Ok(s) => Some(s.to_owned()),
        Err(_) => None,
    }
}

/// Reports whether any byte of `v` is NUL.
fn contains_nul(v: &Vec<u8>) -> (r: bool)
    ensures
        r == v@.contains(0u8),
{
    let mut i: usize = 0;
    while i < v.len()
        invariant
            i <= v@.len(),
            forall|j: int| 0 <= j < i as int ==> v@[j] != 0,
        decreases v@.len() - i as int,
    {
        if v[i] == 0 {
            assert(v@.contains(0u8)) by {
                assert(v@[i as int] == 0);
            }
            return true;
        }
        i = i + 1;
    }
    false
}

/// Encode optional host text as a foreign string view: absent text
/// becomes a null view; present text becomes an owned NUL-terminated
/// UTF-8 buffer whose lifetime the caller controls.  Text with an
/// embedded NUL is rejected with `InvalidContent` before any buffer is
/// built.
pub fn text_to_foreign(o: &Option<String>) -> (r: Result<ForeignString, ConversionError>)
    ensures
        match r {
            Ok(fs) => fs.wf() && !fs.is_ref && text_encodes(opt_text_view(*o), fs),
            Err(e) => e == ConversionError::InvalidContent,
        },
        r is Err <==> text_has_nul(opt_text_view(*o)),
{
    match o {
        None => Ok(ForeignString::default()),
        Some(s) => {
            let mut data: Vec<u8> = slice_to_vec(s.as_str().as_bytes());
            if contains_nul(&data) {
                Err(ConversionError::InvalidContent)
            } else {
                data.push(0);
                let nbytes = data.len();
                Ok(ForeignString { data, nbytes, is_ref: false })
            }
        },
    }
}

/// Decode a foreign string view: a zero-length view is absent text; any
/// other view is read as a NUL-terminated C string, and bytes that are
/// not valid UTF-8 fail with `InvalidEncoding`.
pub fn text_from_foreign(fs: &ForeignString) -> (r: Result<Option<String>, ConversionError>)
    requires
        fs.wf(),
    ensures
        match r {
            Ok(o) => text_decoded(*fs, opt_text_view(o)),
            Err(e) => e == ConversionError::InvalidEncoding,
        },
        r is Ok <==> text_decodable(*fs),
{
    if fs.nbytes == 0 {
        Ok(None)
    } else {
        let n = fs.data.len();
        let mut i: usize = 0;
        while i < n && fs.data[i] != 0
            invariant
                fs.wf(),
                n == fs.data@.len(),
                i <= n,
                forall|j: int| 0 <= j < i as int ==> fs.data@[j] != 0,
            decreases n - i as int,
        {
            i = i + 1;
        }
        proof {
            assert(fs.data@[n as int - 1] == 0);
            assert(i < n);
            lemma_first_zero_is(fs.data@, i as int);
        }
        let prefix: Vec<u8> = slice_to_vec(slice_subrange(fs.data.as_slice(), 0, i));
        proof {
            assert(prefix@ =~= cstr_prefix(fs.data@));
        }
        match utf8_to_text(&prefix) {
            Some(s) => Ok(Some(s)),
            None => Err(ConversionError::InvalidEncoding),
        }
    }
}

/// Law: encoding optional text to a foreign view and decoding that view
/// yields the same optional text.  In particular absent text and present
/// empty text stay distinct: `None` round-trips through a zero-length
/// view, an empty string through a one-byte view.
pub proof fn lemma_text_round_trip(o: Option<Seq<char>>, fs: ForeignString, o2: Option<Seq<char>>)
    requires
        text_encodes(o, fs),
        text_decoded(fs, o2),
    ensures
        o2 == o,
{
    broadcast use vstd::utf8::encode_utf8_valid_utf8;
    broadcast use vstd::utf8::encode_utf8_decode_utf8;

    match o {
        None => {
        },
        Some(s) => {
            let enc = encode_utf8(s);
            assert(fs.data@[enc.len() as int] == 0);
            assert forall|j: int| 0 <= j < enc.len() implies fs.data@[j] != 0 by {
                assert(fs.data@[j] == enc[j]);
            }
            lemma_first_zero_is(fs.data@, enc.len() as int);
            assert(cstr_prefix(fs.data@) =~= enc);
            assert(decode_utf8(enc) == s);
        },
    }
}

} // verus!

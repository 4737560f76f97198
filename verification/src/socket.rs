//! Peer-to-peer socket identifiers: a socket name in a fixed NUL-padded field.
use vstd::prelude::*;
use vstd::string::*;
use vstd::utf8::*;

use crate::cstr::{
    c_string, has_nul, is_nul_error_of, law_c_string_round_trip, lemma_text_end, lemma_text_end_unique,
    is_text_end, terminated, text_end, until_nul,
};
use crate::error::Error;
use crate::text::{c_text_lossy, string_from_c_buffer};

verus! {

/// Size in bytes of a socket name field, terminating NUL included
/// (`EOS_P2P_SOCKETID_SOCKETNAME_SIZE`).
pub const SOCKET_NAME_SIZE: usize = 33;

/// API version of the socket identifier layout (`EOS_P2P_SOCKETID_API_LATEST`).
pub const SOCKET_ID_API_LATEST: i32 = 1;

/// The socket name field that holds the bytes `name`: the bytes, a NUL, then
/// NUL padding up to `SOCKET_NAME_SIZE`.
pub open spec fn socket_field(name: Seq<u8>) -> Seq<u8> {
    terminated(name) + Seq::new((SOCKET_NAME_SIZE - name.len() - 1) as nat, |i: int| 0u8)
}

/// The bytes `name` fit in a socket name field.
pub open spec fn fits_socket_field(name: Seq<u8>) -> bool {
    !has_nul(name) && name.len() + 1 <= SOCKET_NAME_SIZE
}

/// A socket identifier as the SDK reads it: an API version and a
/// NUL-terminated name in a field of `SOCKET_NAME_SIZE` bytes.
pub struct SocketId {
    api_version: i32,
    name: Vec<u8>,
}

impl SocketId {
    #[verifier::type_invariant]
    spec fn well_formed(self) -> bool {
        self.name@.len() == SOCKET_NAME_SIZE
    }

    /// The bytes of the name field.
    pub closed spec fn field(self) -> Seq<u8> {
        self.name@
    }

    /// The API version the identifier carries.
    pub closed spec fn version(self) -> i32 {
        self.api_version
    }

    /// The API version the identifier carries.
    pub fn api_version(&self) -> (v: i32)
        ensures
            v == self.version(),
    {
        self.api_version
    }

    /// The bytes of the name field, NUL padding included.
    pub fn name_field(&self) -> (f: &[u8])
        ensures
            f@ == self.field(),
            f@.len() == SOCKET_NAME_SIZE,
    {
        proof {
            use_type_invariant(self);
        }
        self.name.as_slice()
    }

    /// Reads a socket identifier that the SDK filled in: `field` is its name
    /// field; `None` when the field does not have `SOCKET_NAME_SIZE` bytes.
    pub fn from_field(api_version: i32, field: &[u8]) -> (r: Option<SocketId>)
        ensures
            r is Some <==> field@.len() == SOCKET_NAME_SIZE,
            r matches Some(s) ==> s.field() == field@ && s.version() == api_version,
    {
        if field.len() != SOCKET_NAME_SIZE {
            return None;
        }
        let mut name: Vec<u8> = Vec::new();
        let mut i: usize = 0;
        while i < field.len()
            invariant
                0 <= i <= field.len(),
                name@ == field@.take(i as int),
            decreases field.len() - i,
        {
            name.push(field[i]);
            i = i + 1;
            proof {
                assert(name@ =~= field@.take(i as int));
            }
        }
        proof {
            assert(name@ =~= field@);
        }
        Some(SocketId { api_version, name })
    }

    /// An identifier with an empty name, as the SDK's output slot starts.
    pub fn empty() -> (s: SocketId)
        ensures
            s.field() == Seq::new(SOCKET_NAME_SIZE as nat, |i: int| 0u8),
            s.version() == SOCKET_ID_API_LATEST,
    {
        let mut name: Vec<u8> = Vec::new();
        let mut i: usize = 0;
        while i < SOCKET_NAME_SIZE
            invariant
                0 <= i <= SOCKET_NAME_SIZE,
                name@ == Seq::new(i as nat, |k: int| 0u8),
            decreases SOCKET_NAME_SIZE - i,
        {
            name.push(0u8);
            i = i + 1;
            proof {
                assert(name@ =~= Seq::new(i as nat, |k: int| 0u8));
            }
        }
        SocketId { api_version: SOCKET_ID_API_LATEST, name }
    }
}

/// Builds the socket identifier for `socket_name`. Fails with `Error::Nul`
/// when the name holds a NUL character, and with `Error::Null` when its
/// encoding with the terminating NUL does not fit in `SOCKET_NAME_SIZE` bytes.
pub fn make_socket_id(socket_name: &str) -> (r: Result<SocketId, Error>)
    ensures
        r is Ok <==> fits_socket_field(socket_name.spec_bytes()),
        r matches Ok(id) ==> id.field() == socket_field(socket_name.spec_bytes()) && id.version()
            == SOCKET_ID_API_LATEST,
        has_nul(socket_name.spec_bytes()) ==> (r matches Err(Error::Nul(n)) && is_nul_error_of(
            n,
            socket_name.spec_bytes(),
        )),
        !has_nul(socket_name.spec_bytes()) && socket_name.spec_bytes().len() + 1 > SOCKET_NAME_SIZE
            ==> r == Err::<SocketId, Error>(Error::Null),
{
    let c = c_string(socket_name)?;
    if c.len() > SOCKET_NAME_SIZE {
        return Err(Error::Null);
    }
    let ghost bytes = socket_name.spec_bytes();
    let mut name: Vec<u8> = Vec::new();
    let mut i: usize = 0;
    while i < c.len()
        invariant
            c.len() <= SOCKET_NAME_SIZE,
            0 <= i <= c.len(),
            name@ == c@.take(i as int),
        decreases c.len() - i,
    {
        name.push(c[i]);
        i = i + 1;
        proof {
            assert(name@ =~= c@.take(i as int));
        }
    }
    let mut j: usize = c.len();
    while j < SOCKET_NAME_SIZE
        invariant
            c.len() <= j <= SOCKET_NAME_SIZE,
            name@ == c@ + Seq::new((j - c.len()) as nat, |k: int| 0u8),
        decreases SOCKET_NAME_SIZE - j,
    {
        name.push(0u8);
        j = j + 1;
        proof {
            assert(name@ =~= c@ + Seq::new((j - c.len()) as nat, |k: int| 0u8));
        }
    }
    proof {
        assert(c@ == terminated(bytes));
        assert(name@ =~= socket_field(bytes));
    }
    Ok(SocketId { api_version: SOCKET_ID_API_LATEST, name })
}

/// Builds the socket identifier for an optional socket name; `None` stays `None`.
pub fn make_optional_socket_id(socket_name: Option<&str>) -> (r: Result<Option<SocketId>, Error>)
    ensures
        socket_name is None ==> r matches Ok(None),
        socket_name matches Some(n) ==> (r is Ok <==> fits_socket_field(n.spec_bytes())),
        socket_name matches Some(n) ==> (r matches Ok(o) ==> (o matches Some(id) && id.field()
            == socket_field(n.spec_bytes()) && id.version() == SOCKET_ID_API_LATEST)),
        socket_name matches Some(n) ==> (has_nul(n.spec_bytes()) ==> (r matches Err(Error::Nul(e))
            && is_nul_error_of(e, n.spec_bytes()))),
        socket_name matches Some(n) ==> (!has_nul(n.spec_bytes()) && n.spec_bytes().len() + 1
            > SOCKET_NAME_SIZE ==> r matches Err(Error::Null)),
{
    match socket_name {
        None => Ok(None),
        Some(n) => {
            let id = make_socket_id(n)?;
            Ok(Some(id))
        },
    }
}

/// The socket name held in an identifier: the text before the first NUL of
/// its name field, with invalid UTF-8 replaced.
pub fn socket_name_from_raw(socket: &SocketId) -> (s: String)
    ensures
        s@ == c_text_lossy(socket.field()),
        valid_utf8(until_nul(socket.field())) ==> s@ == decode_utf8(until_nul(socket.field())),
{
    string_from_c_buffer(socket.name_field())
}

/// A socket name fits exactly when it holds no NUL byte and has at most 32
/// bytes, and its field is always 33 bytes: the name, then NULs.
pub proof fn law_socket_name_limit(name: Seq<u8>)
    ensures
        fits_socket_field(name) <==> (!has_nul(name) && name.len() <= 32),
        fits_socket_field(name) ==> socket_field(name).len() == 33,
        fits_socket_field(name) ==> (forall|i: int| 0 <= i < name.len() ==> #[trigger] socket_field(name)[i] == name[i]),
        fits_socket_field(name) ==> (forall|i: int|
            name.len() <= i < 33 ==> #[trigger] socket_field(name)[i] == 0),
{
    if fits_socket_field(name) {
        assert forall|i: int| 0 <= i < name.len() implies #[trigger] socket_field(name)[i] == name[i] by {
            assert(socket_field(name)[i] == terminated(name)[i]);
        }
        assert forall|i: int| name.len() <= i < 33 implies #[trigger] socket_field(name)[i] == 0 by {
            if i == name.len() {
                assert(socket_field(name)[i] == terminated(name)[i]);
            }
        }
    }
}

/// The text in the name field of the identifier built from a name that fits
/// is that name again: what `make_socket_id` writes, `socket_name_from_raw`
/// reads back unchanged.
pub proof fn law_socket_name_round_trip(name: Seq<char>)
    requires
        fits_socket_field(encode_utf8(name)),
    ensures
        until_nul(socket_field(encode_utf8(name))) == encode_utf8(name),
        valid_utf8(until_nul(socket_field(encode_utf8(name)))),
        decode_utf8(until_nul(socket_field(encode_utf8(name)))) == name,
{
    let b = encode_utf8(name);
    let f = socket_field(b);
    law_c_string_round_trip(b);
    lemma_text_end(f);
    assert forall|j: int| 0 <= j < b.len() implies f[j] != 0 by {
        assert(f[j] == terminated(b)[j]);
        assert(terminated(b)[j] == b[j]);
        if b[j] == 0 {
            assert(has_nul(b));
        }
    }
    assert(f[b.len() as int] == terminated(b)[b.len() as int]);
    assert(is_text_end(f, b.len() as int));
    lemma_text_end_unique(f, text_end(f), b.len() as int);
    assert(f.take(b.len() as int) =~= b);
    encode_utf8_valid_utf8(name);
    encode_utf8_decode_utf8(name);
}

} // verus!

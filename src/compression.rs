//! Compression of frame bodies as negotiated in the STARTUP message.
//!
//! A STARTUP message is never compressed; once the server has received it,
//! bodies may be compressed with the agreed algorithm.

use vstd::prelude::*;
use vstd::slice::slice_subrange;

verus! {

/// Largest compressed size that snap allows; an input of `n` bytes is
/// accepted when `32 + n + n / 6` stays within it.
pub const SNAPPY_MAX_OUTPUT: u64 = 4294967295;

/// Wire name of the LZ4 algorithm.
pub const LZ4: &'static str = "lz4";

/// Wire name of the Snappy algorithm.
pub const SNAPPY: &'static str = "snappy";

#[verifier::external_type_specification]
#[verifier::external_body]
pub struct ExSnapError(snap::Error);

#[verifier::external_type_specification]
#[verifier::external_body]
pub struct ExIoError(std::io::Error);

/// An error met while encoding or decoding a frame body, by algorithm.
#[derive(Debug)]
pub enum CompressionError {
    /// Snappy error.
    Snappy(snap::Error),
    /// Lz4 error.
    Lz4(std::io::Error),
}

/// Type of compression. Only a non-startup frame's body can be compressed.
#[derive(Debug, PartialEq, Eq, Structural, Clone, Copy, Ord, PartialOrd)]
pub enum Compression {
    /// lz4 compression
    Lz4,
    /// snappy compression
    Snappy,
    /// no compression
    NoCompression,
}

/// What `lz4_compress::compress` makes of the given bytes. Its match finder
/// hashes in native byte order, so the bytes may differ between little- and
/// big-endian builds; within one build they depend on the input alone.
pub uninterp spec fn lz4_packed(b: Seq<u8>) -> Seq<u8>;

/// What `lz4_compress::decompress` makes of the given bytes (`None`: an error).
pub uninterp spec fn lz4_unpacked(b: Seq<u8>) -> Option<Seq<u8>>;

/// What snap's raw `Encoder::compress_vec` makes of the given bytes.
pub uninterp spec fn snappy_packed(b: Seq<u8>) -> Seq<u8>;

/// What snap's raw `Decoder::decompress_vec` makes of the given bytes (`None`: an error).
pub uninterp spec fn snappy_unpacked(b: Seq<u8>) -> Option<Seq<u8>>;

/// Whether snap accepts an input of `n` bytes for compression.
pub open spec fn snappy_accepts(n: nat) -> bool {
    32 + n + n / 6 <= SNAPPY_MAX_OUTPUT
}

/// The mode that a negotiated name selects; any other name means no compression.
pub open spec fn mode_of(s: Seq<char>) -> Compression {
    if s == seq!['l', 'z', '4'] {
        Compression::Lz4
    } else if s == seq!['s', 'n', 'a', 'p', 'p', 'y'] {
        Compression::Snappy
    } else {
        Compression::NoCompression
    }
}

/// Bytes produced by encoding `b` under `mode`; `None` where encoding fails.
pub open spec fn encoded(mode: Compression, b: Seq<u8>) -> Option<Seq<u8>> {
    match mode {
        Compression::Lz4 => Some(lz4_packed(b)),
        Compression::Snappy => if snappy_accepts(b.len()) {
            Some(snappy_packed(b))
        } else {
            Option::None
        },
        Compression::NoCompression => Some(b),
    }
}

/// Bytes produced by decoding the wire body `b` under `mode`; `None` where
/// decoding fails. An LZ4 body starts with a 4-byte length that is skipped.
pub open spec fn decoded(mode: Compression, b: Seq<u8>) -> Option<Seq<u8>> {
    match mode {
        Compression::Lz4 => if b.len() < 4 {
            Option::None
        } else {
            lz4_unpacked(b.subrange(4, b.len() as int))
        },
        Compression::Snappy => snappy_unpacked(b),
        Compression::NoCompression => Some(b),
    }
}

/// Relies on `lz4_compress::compress`: it never fails, and the LZ4 format is
/// lossless, so `lz4_compress::decompress` gives the input back.
#[verifier::external_body]
fn lz4_compress_bytes(b: &[u8]) -> (r: Vec<u8>)
    ensures
        r@ == lz4_packed(b@),
        lz4_unpacked(r@) == Some(b@),
{
    lz4_compress::compress(b)
}

/// Relies on `lz4_compress::decompress`: the decompressed bytes, or the
/// error it met, wrapped in an `io::Error` of kind `Other`.
#[verifier::external_body]
fn lz4_decompress_bytes(b: &[u8]) -> (r: Result<Vec<u8>, std::io::Error>)
    ensures
        match r {
            Ok(d) => lz4_unpacked(b@) == Some(d@),
            Err(_) => lz4_unpacked(b@) is None,
        },
{
    lz4_compress::decompress(b).map_err(|e| std::io::Error::new(std::io::ErrorKind::Other, e))
}

/// Relies on `std::io::Error::new`: an error of kind `Other` carrying `msg`.
#[verifier::external_body]
fn other_io_error(msg: &str) -> std::io::Error {
    std::io::Error::new(std::io::ErrorKind::Other, msg)
}

/// Relies on snap's raw `Encoder::compress_vec`: it fails only where
/// `max_compress_len` finds the input too big, and Snappy is lossless, so
/// `Decoder::decompress_vec` gives the input back.
#[verifier::external_body]
fn snappy_compress_bytes(b: &[u8]) -> (r: Result<Vec<u8>, snap::Error>)
    ensures
        r is Ok <==> snappy_accepts(b@.len()),
        r matches Ok(c) ==> c@ == snappy_packed(b@) && snappy_unpacked(c@) == Some(b@),
{
    snap::raw::Encoder::new().compress_vec(b)
}

/// Relies on snap's raw `Decoder::decompress_vec`: the decompressed bytes, or
/// the error it met.
#[verifier::external_body]
fn snappy_decompress_bytes(b: &[u8]) -> (r: Result<Vec<u8>, snap::Error>)
    ensures
        match r {
            Ok(d) => snappy_unpacked(b@) == Some(d@),
            Err(_) => snappy_unpacked(b@) is None,
        },
{
    snap::raw::Decoder::new().decompress_vec(b)
}

impl Compression {
    /// Encodes `bytes` with this algorithm. Decoding the result gives `bytes`
    /// back: directly for Snappy and for no compression, and for LZ4 once the
    /// wire's 4-byte length prefix stands in front of it.
    pub fn encode(&self, bytes: Vec<u8>) -> (r: Result<Vec<u8>, CompressionError>)
        ensures
            r is Ok <==> encoded(*self, bytes@) is Some,
            r matches Ok(c) ==> encoded(*self, bytes@) == Some(c@),
            r matches Err(e) ==> e is Snappy,
            *self != Compression::Lz4 ==> (r matches Ok(c) ==> decoded(*self, c@) == Some(bytes@)),
            *self == Compression::Lz4 ==> (r matches Ok(c) ==> forall|p: Seq<u8>|
                p.len() == 4 ==> #[trigger] decoded(*self, p + c@) == Some(bytes@)),
    {
        match *self {
            Compression::Lz4 => {
                let c = lz4_compress_bytes(bytes.as_slice());
                assert forall|p: Seq<u8>| p.len() == 4 implies #[trigger] decoded(*self, p + c@)
                    == Some(bytes@) by {
                    assert((p + c@).subrange(4, (p + c@).len() as int) =~= c@);
                }
                Ok(c)
            },
            Compression::Snappy => match snappy_compress_bytes(bytes.as_slice()) {
                Ok(c) => Ok(c),
                Err(e) => Err(CompressionError::Snappy(e)),
            },
            Compression::NoCompression => Ok(bytes),
        }
    }

    /// Decodes the wire body `bytes` with this algorithm. An LZ4 body begins
    /// with a 4-byte length, skipped here; one shorter than that is an error.
    pub fn decode(&self, bytes: Vec<u8>) -> (r: Result<Vec<u8>, CompressionError>)
        ensures
            r is Ok <==> decoded(*self, bytes@) is Some,
            r matches Ok(d) ==> decoded(*self, bytes@) == Some(d@),
            r matches Err(e) ==> (e is Lz4 <==> *self == Compression::Lz4),
    {
        match *self {
            Compression::Lz4 => {
                if bytes.len() < 4 {
                    return Err(CompressionError::Lz4(other_io_error("missing the 4-byte length prefix")));
                }
                let body = slice_subrange(bytes.as_slice(), 4, bytes.len());
                match lz4_decompress_bytes(body) {
                    Ok(d) => Ok(d),
                    Err(e) => Err(CompressionError::Lz4(e)),
                }
            },
            Compression::Snappy => match snappy_decompress_bytes(bytes.as_slice()) {
                Ok(d) => Ok(d),
                Err(e) => Err(CompressionError::Snappy(e)),
            },
            Compression::NoCompression => Ok(bytes),
        }
    }

    /// The wire name of this algorithm; none for no compression.
    pub fn as_str(&self) -> (r: Option<&'static str>)
        ensures
            r is Some <==> *self != Compression::NoCompression,
            r matches Some(s) ==> mode_of(s@) == *self,
    {
        proof {
            reveal_strlit("lz4");
            reveal_strlit("snappy");
        }
        match *self {
            Compression::Lz4 => {
                assert(LZ4@ =~= seq!['l', 'z', '4']);
                Some(LZ4)
            },
            Compression::Snappy => {
                assert(SNAPPY@ =~= seq!['s', 'n', 'a', 'p', 'p', 'y']);
                Some(SNAPPY)
            },
            Compression::NoCompression => None,
        }
    }

    /// The mode that the negotiated name `s` selects; any other name,
    /// the empty one included, means no compression.
    pub fn from_name(s: &str) -> (r: Compression)
        ensures
            r == mode_of(s@),
    {
        proof {
            reveal_strlit("lz4");
            reveal_strlit("snappy");
        }
        let n = s.unicode_len();
        if n == 3 && s.get_char(0) == 'l' && s.get_char(1) == 'z' && s.get_char(2) == '4' {
            assert(s@ =~= seq!['l', 'z', '4']);
            Compression::Lz4
        } else if n == 6 && s.get_char(0) == 's' && s.get_char(1) == 'n' && s.get_char(2) == 'a'
            && s.get_char(3) == 'p' && s.get_char(4) == 'p' && s.get_char(5) == 'y' {
            assert(s@ =~= seq!['s', 'n', 'a', 'p', 'p', 'y']);
            Compression::Snappy
        } else {
            Compression::NoCompression
        }
    }
}

impl<'a> From<&'a str> for Compression {
    /// Converts a negotiated name into its mode: `lz4` and `snappy` are
    /// recognised, any other name means no compression.
    fn from(s: &'a str) -> (r: Compression)
        ensures
            r == mode_of(s@),
    {
        Compression::from_name(s)
    }
}

impl<'a> vstd::std_specs::convert::FromSpecImpl<&'a str> for Compression {
    open spec fn obeys_from_spec() -> bool {
        true
    }

    open spec fn from_spec(s: &'a str) -> Compression {
        mode_of(s@)
    }
}

impl From<String> for Compression {
    /// Converts a negotiated name into its mode, as for `&str`.
    fn from(s: String) -> (r: Compression)
        ensures
            r == mode_of(s@),
    {
        Compression::from_name(s.as_str())
    }
}

impl vstd::std_specs::convert::FromSpecImpl<String> for Compression {
    open spec fn obeys_from_spec() -> bool {
        true
    }

    open spec fn from_spec(s: String) -> Compression {
        mode_of(s@)
    }
}

/// No compression is the identity: encoding and decoding both give the
/// bytes back unchanged.
pub proof fn lemma_none_is_identity(b: Seq<u8>)
    ensures
        encoded(Compression::NoCompression, b) == Some(b),
        decoded(Compression::NoCompression, b) == Some(b),
{
}

/// The two recognised names select their algorithms; the empty name selects none.
pub proof fn lemma_names_select_modes()
    ensures
        mode_of(seq!['l', 'z', '4']) == Compression::Lz4,
        mode_of(seq!['s', 'n', 'a', 'p', 'p', 'y']) == Compression::Snappy,
        mode_of(Seq::<char>::empty()) == Compression::NoCompression,
{
    assert(seq!['l', 'z', '4'].len() == 3);
    assert(seq!['s', 'n', 'a', 'p', 'p', 'y'].len() == 6);
}

} // verus!

use vstd::prelude::*;

verus! {

/// The protocol versions this registry understands. The default is the
/// oldest one, for backward compatibility.
#[derive(Clone, Copy, Debug, PartialEq, Eq, Structural)]
pub enum ProtocolVersion {
    V20241105,
    V20250326,
}

#[derive(Clone, Copy, Debug, PartialEq, Eq, Structural)]
pub enum ProtocolVersionError {
    UnsupportedVersion,
}

/// The bytes of `2024-11-05`.
pub open spec fn token_2024_11_05() -> Seq<u8> {
    seq![50u8, 48u8, 50u8, 52u8, 45u8, 49u8, 49u8, 45u8, 48u8, 53u8]
}

/// The bytes of `2025-03-26`.
pub open spec fn token_2025_03_26() -> Seq<u8> {
    seq![50u8, 48u8, 50u8, 53u8, 45u8, 48u8, 51u8, 45u8, 50u8, 54u8]
}

/// The token that names each version.
pub open spec fn version_token(v: ProtocolVersion) -> Seq<u8> {
    match v {
        ProtocolVersion::V20241105 => token_2024_11_05(),
        ProtocolVersion::V20250326 => token_2025_03_26(),
    }
}

/// A token names a version exactly when it equals that version's token,
/// byte for byte; every other byte string is unsupported.
pub open spec fn parse_version(b: Seq<u8>) -> Option<ProtocolVersion> {
    if b == token_2024_11_05() {
        Some(ProtocolVersion::V20241105)
    } else if b == token_2025_03_26() {
        Some(ProtocolVersion::V20250326)
    } else {
        None
    }
}

fn bytes_equal(a: &[u8], b: &[u8]) -> (r: bool)
    ensures
        r <==> a@ == b@,
{
    if a.len() != b.len() {
        return false;
    }
    let mut i: usize = 0;
    while i < a.len()
        invariant
            a@.len() == b@.len(),
            i <= a@.len(),
            a@.subrange(0, i as int) == b@.subrange(0, i as int),
        decreases a@.len() - i,
    {
        if a[i] != b[i] {
            assert(a@[i as int] != b@[i as int]);
            return false;
        }
        assert(a@.subrange(0, i + 1) == a@.subrange(0, i as int).push(a@[i as int]));
        assert(b@.subrange(0, i + 1) == b@.subrange(0, i as int).push(b@[i as int]));
        i = i + 1;
    }
    assert(a@ == a@.subrange(0, i as int));
    assert(b@ == b@.subrange(0, i as int));
    true
}

impl Default for ProtocolVersion {
    fn default() -> (r: Self)
        ensures
            r == ProtocolVersion::V20241105,
    {
        ProtocolVersion::V20241105
    }
}

impl ProtocolVersion {
    /// Parses a version token.
    pub fn new(version: &[u8]) -> (r: Result<Self, ProtocolVersionError>)
        ensures
            r == (match parse_version(version@) {
                Some(v) => Ok(v),
                None => Err(ProtocolVersionError::UnsupportedVersion),
            }),
    {
        let old_token = ProtocolVersion::V20241105.token();
        let new_token = ProtocolVersion::V20250326.token();
        if bytes_equal(version, old_token.as_slice()) {
            Ok(ProtocolVersion::V20241105)
        } else if bytes_equal(version, new_token.as_slice()) {
            Ok(ProtocolVersion::V20250326)
        } else {
            Err(ProtocolVersionError::UnsupportedVersion)
        }
    }

    /// The newest supported version.
    pub fn latest() -> (r: Self)
        ensures
            r == ProtocolVersion::V20250326,
    {
        ProtocolVersion::V20250326
    }

    pub fn v_2024_11_05() -> (r: Self)
        ensures
            r == ProtocolVersion::V20241105,
    {
        ProtocolVersion::V20241105
    }

    /// The token that names this version.
    pub fn token(&self) -> (r: Vec<u8>)
        ensures
            r@ == version_token(*self),
    {
        let r = match self {
            ProtocolVersion::V20241105 => vec![50u8, 48u8, 50u8, 52u8, 45u8, 49u8, 49u8, 45u8, 48u8, 53u8],
            ProtocolVersion::V20250326 => vec![50u8, 48u8, 50u8, 53u8, 45u8, 48u8, 51u8, 45u8, 50u8, 54u8],
        };
        assert(r@ == version_token(*self));
        r
    }
}

/// Each version's token parses back to that version.
pub proof fn lemma_token_round_trip(v: ProtocolVersion)
    ensures
        parse_version(version_token(v)) == Some(v),
{
    if v == ProtocolVersion::V20250326 {
        assert(token_2025_03_26()[3] != token_2024_11_05()[3]);
    }
}

} // verus!

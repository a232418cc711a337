//! The wire format of one transfer: a four-byte big-endian length, a JSON
//! metadata block of that length, then the file's bytes up to the end of the
//! connection.

use vstd::prelude::*;

verus! {

/// The `serde_json` crate's error for text it cannot write or read.
#[verifier::external_type_specification]
#[verifier::external_body]
pub struct ExJsonError(serde_json::Error);

/// The bytes that `serde_json::to_vec` writes for a JSON object with one
/// member, whose key and value are these two strings.
pub uninterp spec fn json_object_text(key: Seq<char>, value: Seq<char>) -> Seq<u8>;

/// What `serde_json` reads from the bytes under a key: `None` where the bytes
/// are no JSON document, `Some(None)` where the document has no string under
/// the key, else the string.
pub uninterp spec fn json_member_text(bytes: Seq<u8>, key: Seq<char>) -> Option<Option<Seq<char>>>;

/// Builds the JSON object `{key: value}` as a `serde_json::Value` and writes
/// it with `serde_json::to_vec`. Trusted: writing an object with a string
/// key and a string value into a vector does not fail, the bytes written
/// depend on the two strings alone, and reading them back under the same key
/// gives the value.
#[verifier::external_body]
fn write_json_object(key: &str, value: &str) -> (r: Result<Vec<u8>, serde_json::Error>)
    ensures
        r is Ok,
        r matches Ok(bytes) ==> bytes@ == json_object_text(key@, value@) && json_member_text(
            bytes@,
            key@,
        ) == Some(Some(value@)),
{
    let mut members = serde_json::Map::new();
    members.insert(key.to_string(), serde_json::Value::String(value.to_string()));
    serde_json::to_vec(&serde_json::Value::Object(members))
}

/// Reads the bytes with `serde_json::from_slice` into a `serde_json::Value`
/// and looks up a string with `Value::get` and `Value::as_str`. Trusted: the
/// outcome depends on the bytes and the key alone; an error means the bytes
/// are no JSON document.
#[verifier::external_body]
fn read_json_member(bytes: &[u8], key: &str) -> (r: Result<Option<String>, serde_json::Error>)
    ensures
        match r {
            Ok(Some(text)) => json_member_text(bytes@, key@) == Some(Some(text@)),
            Ok(None) => json_member_text(bytes@, key@) == Some(None::<Seq<char>>),
            Err(_) => json_member_text(bytes@, key@) is None,
        },
{
    let document: serde_json::Value = serde_json::from_slice(bytes)?;
    Ok(document.get(key).and_then(|member| member.as_str()).map(|text| text.to_string()))
}

/// Why an outgoing transfer could not be made.
#[derive(Debug, Clone, Copy, PartialEq, Eq, Structural)]
pub enum TransferError {
    /// Reading the file, connecting or writing failed.
    Io,
    /// The metadata could not be encoded, or is too long for its length prefix.
    Serialization,
}

/// Why an incoming connection was abandoned.
#[derive(Debug, Clone, Copy, PartialEq, Eq, Structural)]
pub enum ProtocolError {
    /// The connection ended, or a read failed, before the header was complete.
    PrematureEof,
    /// The metadata block is not a JSON document.
    MalformedMetadata,
    /// The metadata block is JSON but holds no string under the key `path`.
    SchemaMismatch,
}

/// The metadata block of a transfer.
#[derive(Debug, Clone, PartialEq, Eq)]
pub struct FileMetadata {
    /// The file's path relative to the watch root.
    pub path: String,
}

/// One transfer: where the file goes, relative to the receiver's root, and
/// what it holds.
#[derive(Debug, Clone, PartialEq, Eq)]
pub struct TransferMessage {
    pub relative_path: String,
    pub payload: Vec<u8>,
}

/// The key under which the metadata block holds the relative path.
pub open spec fn metadata_key() -> Seq<char> {
    "path"@
}

/// The largest metadata block that the length prefix can announce.
pub const MAX_METADATA_LEN: usize = 0xffff_ffff;

/// The four bytes of a length, most significant first.
pub open spec fn be32(n: nat) -> Seq<u8> {
    seq![
        ((n / 0x100_0000) % 256) as u8,
        ((n / 0x1_0000) % 256) as u8,
        ((n / 0x100) % 256) as u8,
        (n % 256) as u8,
    ]
}

/// The length that four bytes announce, most significant first.
pub open spec fn be32_value(bytes: Seq<u8>) -> nat
    recommends
        bytes.len() == 4,
{
    (bytes[0] as nat) * 0x100_0000 + (bytes[1] as nat) * 0x1_0000 + (bytes[2] as nat) * 0x100
        + (bytes[3] as nat)
}

/// Whether the metadata block for a relative path is short enough for the
/// length prefix to announce it.
pub open spec fn metadata_fits(relative_path: Seq<char>) -> bool {
    json_object_text(metadata_key(), relative_path).len() <= MAX_METADATA_LEN
}

/// The header of a transfer: the length prefix, then the metadata block.
pub open spec fn header_of(metadata: Seq<u8>) -> Seq<u8> {
    be32(metadata.len()) + metadata
}

/// What a metadata lookup means for the receiver.
pub open spec fn metadata_of(member: Option<Option<Seq<char>>>) -> Result<Seq<char>, ProtocolError> {
    match member {
        None => Err(ProtocolError::MalformedMetadata),
        Some(None) => Err(ProtocolError::SchemaMismatch),
        Some(Some(path)) => Ok(path),
    }
}

/// What a receiver makes of all the bytes of one connection: the relative
/// path and the payload, or the reason it gives up.
pub open spec fn parse_spec(bytes: Seq<u8>) -> Result<(Seq<char>, Seq<u8>), ProtocolError> {
    if bytes.len() < 4 {
        Err(ProtocolError::PrematureEof)
    } else {
        let n = be32_value(bytes.take(4)) as int;
        if bytes.len() < 4 + n {
            Err(ProtocolError::PrematureEof)
        } else {
            match metadata_of(json_member_text(bytes.subrange(4, 4 + n), metadata_key())) {
                Ok(path) => Ok((path, bytes.skip(4 + n))),
                Err(e) => Err(e),
            }
        }
    }
}

/// Decoding the four bytes of a length gives the length back.
pub proof fn lemma_be32_round_trip(n: nat)
    requires
        n <= 0xffff_ffff,
    ensures
        be32(n).len() == 4,
        be32_value(be32(n)) == n,
{
}

/// A header followed by any payload splits again into the metadata block and
/// that payload.
pub proof fn lemma_header_splits(metadata: Seq<u8>, payload: Seq<u8>)
    requires
        metadata.len() <= 0xffff_ffff,
    ensures
        (header_of(metadata) + payload).len() == 4 + metadata.len() + payload.len(),
        be32_value((header_of(metadata) + payload).take(4)) == metadata.len(),
        (header_of(metadata) + payload).subrange(4, 4 + metadata.len() as int) == metadata,
        (header_of(metadata) + payload).skip(4 + metadata.len() as int) == payload,
{
    let whole = header_of(metadata) + payload;
    lemma_be32_round_trip(metadata.len());
    assert(whole.take(4) =~= be32(metadata.len()));
    assert(whole.subrange(4, 4 + metadata.len() as int) =~= metadata);
    assert(whole.skip(4 + metadata.len() as int) =~= payload);
}

/// Round trip: a metadata block that reads as a path, framed and followed
/// by any payload, is received as that path and that payload.
pub proof fn lemma_round_trip(metadata: Seq<u8>, path: Seq<char>, payload: Seq<u8>)
    requires
        metadata.len() <= 0xffff_ffff,
        json_member_text(metadata, metadata_key()) == Some(Some(path)),
    ensures
        parse_spec(header_of(metadata) + payload) == Ok::<_, ProtocolError>((path, payload)),
{
    lemma_header_splits(metadata, payload);
}

/// Appends the bytes of a slice to a vector.
pub fn append_bytes(dst: &mut Vec<u8>, src: &[u8])
    ensures
        final(dst)@ == old(dst)@ + src@,
{
    let mut i: usize = 0;
    while i < src.len()
        invariant
            i <= src.len(),
            dst@ == old(dst)@ + src@.take(i as int),
        decreases src.len() - i,
    {
        dst.push(src[i]);
        assert(src@.take(i as int + 1) =~= src@.take(i as int).push(src@[i as int]));
        i += 1;
    }
    assert(src@.take(i as int) =~= src@);
}

/// The four bytes of a length, most significant first.
pub fn encode_length(n: u32) -> (r: Vec<u8>)
    ensures
        r@ == be32(n as nat),
{
    let mut r: Vec<u8> = Vec::new();
    r.push(((n / 0x100_0000) % 256) as u8);
    r.push(((n / 0x1_0000) % 256) as u8);
    r.push(((n / 0x100) % 256) as u8);
    r.push((n % 256) as u8);
    assert(r@ =~= be32(n as nat));
    r
}

/// The length that a length prefix announces; `None` unless it has four bytes.
pub fn decode_length(bytes: &[u8]) -> (r: Option<u32>)
    ensures
        bytes@.len() != 4 ==> r is None,
        bytes@.len() == 4 ==> r == Some(be32_value(bytes@) as u32) && be32_value(bytes@)
            <= 0xffff_ffff,
{
    if bytes.len() != 4 {
        return None;
    }
    let b0: u32 = bytes[0] as u32;
    let b1: u32 = bytes[1] as u32;
    let b2: u32 = bytes[2] as u32;
    let b3: u32 = bytes[3] as u32;
    Some(b0 * 0x100_0000 + b1 * 0x1_0000 + b2 * 0x100 + b3)
}

/// Puts the length prefix in front of a metadata block.
///
/// Fails with `Serialization` exactly when the block is longer than the
/// prefix can announce.
pub fn frame_header(metadata: &[u8]) -> (r: Result<Vec<u8>, TransferError>)
    ensures
        metadata@.len() <= MAX_METADATA_LEN ==> r is Ok && r->Ok_0@ == header_of(metadata@),
        metadata@.len() > MAX_METADATA_LEN ==> r == Err::<Vec<u8>, _>(TransferError::Serialization),
{
    if metadata.len() > MAX_METADATA_LEN {
        return Err(TransferError::Serialization);
    }
    let mut header = encode_length(metadata.len() as u32);
    append_bytes(&mut header, metadata);
    Ok(header)
}

/// Encodes the metadata block for a relative path: the JSON object
/// `{"path": relative_path}`.
///
/// This succeeds on every path, and the block reads back as the same path.
pub fn encode_metadata(relative_path: &str) -> (r: Result<Vec<u8>, TransferError>)
    ensures
        r is Ok,
        match r {
            Ok(block) => {
                &&& block@ == json_object_text(metadata_key(), relative_path@)
                &&& metadata_of(json_member_text(block@, metadata_key())) == Ok::<
                    _,
                    ProtocolError,
                >(relative_path@)
            },
            Err(e) => e == TransferError::Serialization,
        },
{
    match write_json_object("path", relative_path) {
        Ok(block) => Ok(block),
        Err(_) => Err(TransferError::Serialization),
    }
}

/// The header of the transfer of a file with this relative path.
///
/// Fails with `Serialization` exactly when the metadata block is longer
/// than the length prefix can announce. Whatever payload follows a header
/// that this returns, a receiver reads the same relative path and the same
/// payload from the whole.
pub fn transfer_header(relative_path: &str) -> (r: Result<Vec<u8>, TransferError>)
    ensures
        r is Ok <==> metadata_fits(relative_path@),
        match r {
            Ok(header) => {
                &&& header@ == header_of(json_object_text(metadata_key(), relative_path@))
                &&& forall|payload: Seq<u8>| #[trigger]
                    parse_spec(header@ + payload) == Ok::<_, ProtocolError>(
                        (relative_path@, payload),
                    )
            },
            Err(e) => e == TransferError::Serialization,
        },
{
    match encode_metadata(relative_path) {
        Ok(block) => {
            let framed = frame_header(block.as_slice());
            proof {
                if block@.len() <= MAX_METADATA_LEN {
                    assert forall|payload: Seq<u8>| #[trigger]
                        parse_spec(header_of(block@) + payload) == Ok::<_, ProtocolError>(
                            (relative_path@, payload),
                        ) by {
                        lemma_round_trip(block@, relative_path@, payload);
                    }
                }
            }
            framed
        },
        Err(e) => Err(e),
    }
}

/// The whole byte stream of one transfer: header, then payload, and
/// nothing else. Fails as `transfer_header` does.
pub fn encode_message(relative_path: &str, payload: &[u8]) -> (r: Result<Vec<u8>, TransferError>)
    ensures
        r is Ok <==> metadata_fits(relative_path@),
        match r {
            Ok(bytes) => {
                &&& bytes@ == header_of(json_object_text(metadata_key(), relative_path@))
                    + payload@
                &&& parse_spec(bytes@) == Ok::<_, ProtocolError>((relative_path@, payload@))
            },
            Err(e) => e == TransferError::Serialization,
        },
{
    match transfer_header(relative_path) {
        Ok(header) => {
            let mut bytes = header;
            append_bytes(&mut bytes, payload);
            Ok(bytes)
        },
        Err(e) => Err(e),
    }
}

/// Turns the outcome of a metadata lookup into the metadata, or into the
/// protocol error that the outcome stands for.
pub fn metadata_from_member(member: Option<Option<String>>) -> (r: Result<
    FileMetadata,
    ProtocolError,
>)
    ensures
        match r {
            Ok(metadata) => member == Some(Some(metadata.path)),
            Err(e) => e == match member {
                None => ProtocolError::MalformedMetadata,
                _ => ProtocolError::SchemaMismatch,
            } && !(member matches Some(Some(_))),
        },
{
    match member {
        None => Err(ProtocolError::MalformedMetadata),
        Some(None) => Err(ProtocolError::SchemaMismatch),
        Some(Some(path)) => Ok(FileMetadata { path }),
    }
}

/// Decodes a metadata block.
///
/// Fails with `MalformedMetadata` where the block is no JSON document, and
/// with `SchemaMismatch` where the document holds no string under `path`.
pub fn decode_metadata(block: &[u8]) -> (r: Result<FileMetadata, ProtocolError>)
    ensures
        match r {
            Ok(metadata) => metadata_of(json_member_text(block@, metadata_key())) == Ok::<
                _,
                ProtocolError,
            >(metadata.path@),
            Err(e) => metadata_of(json_member_text(block@, metadata_key())) == Err::<Seq<char>, _>(
                e,
            ),
        },
{
    let member = match read_json_member(block, "path") {
        Ok(found) => Some(found),
        Err(_) => None,
    };
    metadata_from_member(member)
}

/// Reads one whole transfer from all the bytes of a connection.
///
/// Fails with `PrematureEof` where the bytes end before the header does, and
/// as `decode_metadata` does on the metadata block.
pub fn parse_message(bytes: &[u8]) -> (r: Result<TransferMessage, ProtocolError>)
    ensures
        match r {
            Ok(message) => parse_spec(bytes@) == Ok::<_, ProtocolError>(
                (message.relative_path@, message.payload@),
            ),
            Err(e) => parse_spec(bytes@) == Err::<(Seq<char>, Seq<u8>), _>(e),
        },
{
    if bytes.len() < 4 {
        return Err(ProtocolError::PrematureEof);
    }
    let prefix = vstd::slice::slice_subrange(bytes, 0, 4);
    assert(prefix@ =~= bytes@.take(4));
    let announced: usize = match decode_length(prefix) {
        Some(n) => n as usize,
        None => {
            return Err(ProtocolError::PrematureEof);
        },
    };
    if bytes.len() - 4 < announced {
        return Err(ProtocolError::PrematureEof);
    }
    let block = vstd::slice::slice_subrange(bytes, 4, 4 + announced);
    match decode_metadata(block) {
        Ok(metadata) => {
            let rest = vstd::slice::slice_subrange(bytes, 4 + announced, bytes.len());
            assert(rest@ =~= bytes@.skip(4 + announced));
            let mut payload: Vec<u8> = Vec::new();
            append_bytes(&mut payload, rest);
            assert(payload@ =~= rest@);
            Ok(TransferMessage { relative_path: metadata.path, payload })
        },
        Err(e) => Err(e),
    }
}

} // verus!

use vstd::prelude::*;
use vstd::utf8::*;
use vstd::string::StringSliceAdditionalSpecFns;
use crate::error::StorageError;
use crate::text::string_from_utf8;

verus! {

broadcast use vstd::std_specs::vec::group_vec_axioms;

/// The longest content type, in bytes, that a drive record can hold.
pub const MAX_CONTENT_TYPE_LEN: usize = 255;

/// The file that stores a blob on a drive: one byte with the length of the
/// content type, the content type, then the payload.
pub open spec fn drive_record(content_type: Seq<u8>, payload: Seq<u8>) -> Seq<u8> {
    seq![content_type.len() as u8] + content_type + payload
}

/// The length of the content type that a record declares.
pub open spec fn declared_len(file: Seq<u8>) -> int {
    file[0] as int
}

/// A record whose declared content type fits in the file and is valid UTF-8.
pub open spec fn well_formed_record(file: Seq<u8>) -> bool {
    &&& file.len() >= 1
    &&& 1 + declared_len(file) <= file.len()
    &&& valid_utf8(file.subrange(1, 1 + declared_len(file)))
}

/// The content type that a well-formed record holds.
pub open spec fn record_content_type(file: Seq<u8>) -> Seq<char> {
    decode_utf8(file.subrange(1, 1 + declared_len(file)))
}

/// The payload that a well-formed record holds.
pub open spec fn record_payload(file: Seq<u8>) -> Seq<u8> {
    file.subrange(1 + declared_len(file), file.len() as int)
}

/// Lays out a blob and its content type as a drive record. A content type
/// longer than the length byte can say is refused, never truncated.
pub fn encode_drive_record(content_type: &str, bytes: &[u8]) -> (r: Result<Vec<u8>, StorageError>)
    ensures
        r is Err <==> content_type.spec_bytes().len() > MAX_CONTENT_TYPE_LEN,
        r is Err ==> r == Err::<Vec<u8>, StorageError>(StorageError::ContentTypeTooLong),
        r is Ok ==> r->Ok_0@ == drive_record(content_type.spec_bytes(), bytes@),
{
    let ct = content_type.as_bytes();
    if ct.len() > MAX_CONTENT_TYPE_LEN {
        return Err(StorageError::ContentTypeTooLong);
    }
    let mut out: Vec<u8> = Vec::new();
    out.push(ct.len() as u8);
    let mut i: usize = 0;
    while i < ct.len()
        invariant
            i <= ct@.len(),
            ct@ == content_type.spec_bytes(),
            out@ == seq![ct@.len() as u8] + ct@.subrange(0, i as int),
        decreases ct@.len() - i,
    {
        out.push(ct[i]);
        i += 1;
        assert(ct@.subrange(0, i as int) =~= ct@.subrange(0, i - 1) + seq![ct@[i - 1]]);
    }
    let mut j: usize = 0;
    while j < bytes.len()
        invariant
            j <= bytes@.len(),
            ct@ == content_type.spec_bytes(),
            out@ == seq![ct@.len() as u8] + ct@ + bytes@.subrange(0, j as int),
        decreases bytes@.len() - j,
    {
        out.push(bytes[j]);
        j += 1;
        assert(bytes@.subrange(0, j as int) =~= bytes@.subrange(0, j - 1) + seq![bytes@[j - 1]]);
    }
    assert(ct@.subrange(0, ct@.len() as int) =~= ct@);
    assert(bytes@.subrange(0, bytes@.len() as int) =~= bytes@);
    Ok(out)
}

/// Copies `file[start..end]` into a new vector.
fn copy_range(file: &[u8], start: usize, end: usize) -> (r: Vec<u8>)
    requires
        start <= end <= file@.len(),
    ensures
        r@ == file@.subrange(start as int, end as int),
{
    let mut out: Vec<u8> = Vec::new();
    let mut i: usize = start;
    while i < end
        invariant
            start <= i <= end <= file@.len(),
            out@ == file@.subrange(start as int, i as int),
        decreases end - i,
    {
        out.push(file[i]);
        i += 1;
        assert(file@.subrange(start as int, i as int) =~= file@.subrange(start as int, i - 1)
            + seq![file@[i - 1]]);
    }
    out
}

/// Reads the content type at the head of a drive record, with the offset at
/// which the payload starts.
pub fn read_content_type(file: &[u8]) -> (r: Result<(String, usize), StorageError>)
    ensures
        r is Ok <==> well_formed_record(file@),
        r is Err ==> r == Err::<(String, usize), StorageError>(StorageError::CorruptRecord),
        r is Ok ==> r->Ok_0.0@ == record_content_type(file@) && r->Ok_0.1 == 1 + declared_len(
            file@,
        ),
{
    if file.len() == 0 {
        return Err(StorageError::CorruptRecord);
    }
    let len: usize = file[0] as usize;
    if len > file.len() - 1 {
        return Err(StorageError::CorruptRecord);
    }
    let ct = copy_range(file, 1, 1 + len);
    match string_from_utf8(ct) {
        Some(s) => Ok((s, 1 + len)),
        None => Err(StorageError::CorruptRecord),
    }
}

/// Reads the payload of a drive record, which runs from `start` to the end.
pub fn read_file_bytes(file: &[u8], start: usize) -> (r: Vec<u8>)
    requires
        start <= file@.len(),
    ensures
        r@ == file@.subrange(start as int, file@.len() as int),
{
    copy_range(file, start, file.len())
}

/// Reads a drive record back into its payload and content type. Anything
/// malformed is a `CorruptRecord`, never a panic.
pub fn decode_drive_record(file: &[u8]) -> (r: Result<(Vec<u8>, String), StorageError>)
    ensures
        r is Ok <==> well_formed_record(file@),
        r is Err ==> r == Err::<(Vec<u8>, String), StorageError>(StorageError::CorruptRecord),
        r is Ok ==> r->Ok_0.0@ == record_payload(file@) && r->Ok_0.1@ == record_content_type(
            file@,
        ),
{
    let (content_type, start) = read_content_type(file)?;
    let bytes = read_file_bytes(file, start);
    Ok((bytes, content_type))
}

/// A content type of at most `MAX_CONTENT_TYPE_LEN` bytes, stored with any
/// payload, reads back as the same content type and payload.
pub proof fn lemma_drive_round_trip(content_type: Seq<char>, payload: Seq<u8>)
    requires
        encode_utf8(content_type).len() <= MAX_CONTENT_TYPE_LEN,
    ensures
        well_formed_record(drive_record(encode_utf8(content_type), payload)),
        record_content_type(drive_record(encode_utf8(content_type), payload)) == content_type,
        record_payload(drive_record(encode_utf8(content_type), payload)) == payload,
{
    let ct = encode_utf8(content_type);
    let file = drive_record(ct, payload);
    assert(declared_len(file) == ct.len());
    assert(file.subrange(1, 1 + ct.len() as int) =~= ct);
    assert(file.subrange(1 + ct.len() as int, file.len() as int) =~= payload);
    encode_utf8_valid_utf8(content_type);
    encode_utf8_decode_utf8(content_type);
}

} // verus!

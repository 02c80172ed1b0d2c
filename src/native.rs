//! Plain-value helpers for the solver's calling convention: status codes,
//! blank-padded text buffers and the table of array sizes.

use vstd::prelude::*;
use vstd::utf8::{decode_utf8, encode_utf8, valid_utf8};

use crate::error::ChemAppError;

verus! {

/// Size of the buffer that receives a name from the solver.
pub const NAME_LENGTH_MAX: usize = 25;

/// The blank that pads the solver's fixed-width texts.
pub const BLANK: u8 = 32;

/// Number of leading bytes of `buf` before its first blank.
pub open spec fn text_len(buf: Seq<u8>) -> nat
    decreases buf.len(),
{
    if buf.len() == 0 || buf[0] == BLANK {
        0
    } else {
        1 + text_len(buf.drop_first())
    }
}

/// The bytes of a name held in a solver buffer: those before the first blank,
/// without NUL bytes.
pub open spec fn name_bytes(buf: Seq<u8>) -> Seq<u8> {
    buf.take(text_len(buf) as int).filter(|b: u8| b != 0)
}

proof fn lemma_text_len_split(buf: Seq<u8>, i: int)
    requires
        0 <= i <= buf.len(),
        forall|j: int| 0 <= j < i ==> buf[j] != BLANK,
    ensures
        text_len(buf) == i + text_len(buf.subrange(i, buf.len() as int)),
    decreases i,
{
    if i > 0 {
        let rest = buf.drop_first();
        assert forall|j: int| 0 <= j < i - 1 implies rest[j] != BLANK by {
            assert(rest[j] == buf[j + 1]);
        }
        lemma_text_len_split(rest, i - 1);
        assert(rest.subrange(i - 1, rest.len() as int) =~= buf.subrange(i, buf.len() as int));
    } else {
        assert(buf.subrange(0, buf.len() as int) =~= buf);
    }
}

/// Length of the text in a blank-padded buffer: the number of bytes before
/// the first blank, or the whole buffer where there is none.
pub fn clen(array: &[u8]) -> (r: usize)
    ensures
        r == text_len(array@),
        r <= array@.len(),
        forall|j: int| 0 <= j < r ==> array@[j] != BLANK,
        r < array@.len() ==> array@[r as int] == BLANK,
{
    let mut length: usize = 0;
    while length < array.len() && array[length] != BLANK
        invariant
            length <= array@.len(),
            forall|j: int| 0 <= j < length ==> array@[j] != BLANK,
        decreases array@.len() - length,
    {
        length = length + 1;
    }
    proof {
        lemma_text_len_split(array@, length as int);
        let rest = array@.subrange(length as int, array@.len() as int);
        assert(rest.len() == 0 || rest[0] == BLANK);
    }
    length
}

/// Pairs a solver result with the status code the solver gave with it.
pub fn wrap_result<T>(result: T, errcode: usize) -> (r: Result<T, ChemAppError>)
    ensures
        errcode == 0 ==> r == Ok::<T, ChemAppError>(result),
        errcode != 0 ==> r == Err::<T, ChemAppError>(ChemAppError::NativeError(errcode)),
{
    if errcode == 0 {
        Ok(result)
    } else {
        Err(ChemAppError::NativeError(errcode))
    }
}

/// Relies on std::str::from_utf8: it accepts exactly the valid UTF-8 byte
/// sequences and then holds the characters they encode; its error is
/// rendered as text.
#[verifier::external_body]
fn utf8_text(bytes: &[u8]) -> (r: Result<String, String>)
    ensures
        r.is_ok() == valid_utf8(bytes@),
        r matches Ok(s) ==> s@ == decode_utf8(bytes@),
{
    match std::str::from_utf8(bytes) {
        Ok(s) => Ok(s.to_string()),
        Err(e) => Err(e.to_string()),
    }
}

/// Reads a name that the solver wrote into a blank-padded buffer: the bytes
/// before the first blank, NUL bytes left out, decoded as UTF-8. Bytes that
/// are not UTF-8 give a format error.
pub fn decode_name(buf: &[u8]) -> (r: Result<String, ChemAppError>)
    ensures
        r.is_ok() == valid_utf8(name_bytes(buf@)),
        r matches Ok(s) ==> s@ == decode_utf8(name_bytes(buf@)),
        r matches Err(e) ==> e is FormatError,
{
    let n = clen(buf);
    let mut kept: Vec<u8> = Vec::new();
    let mut i: usize = 0;
    while i < n
        invariant
            n <= buf@.len(),
            i <= n,
            kept@ == buf@.take(i as int).filter(|b: u8| b != 0),
        decreases n - i,
    {
        proof {
            let p = |b: u8| b != 0;
            let next = buf@.take(i as int + 1);
            assert(next.drop_last() =~= buf@.take(i as int));
            assert(next.last() == buf@[i as int]);
            reveal(Seq::filter);
            assert(next.filter(p) == if p(next.last()) {
                next.drop_last().filter(p).push(next.last())
            } else {
                next.drop_last().filter(p)
            });
        }
        if buf[i] != 0 {
            kept.push(buf[i]);
        }
        i = i + 1;
    }
    match utf8_text(kept.as_slice()) {
        Ok(s) => Ok(s),
        Err(m) => Err(ChemAppError::FormatError(m)),
    }
}

/// Width of one name in the block of component names handed to the solver.
pub const NAME_FIELD: usize = 24;

/// A name in its field: its first `NAME_FIELD` bytes, padded with blanks.
pub open spec fn padded_field(name: Seq<u8>) -> Seq<u8> {
    Seq::new(NAME_FIELD as nat, |j: int| if j < name.len() { name[j] } else { BLANK })
}

/// The fields of the names, one after the other.
pub open spec fn packed_fields(names: Seq<Seq<u8>>) -> Seq<u8>
    decreases names.len(),
{
    if names.len() == 0 {
        Seq::empty()
    } else {
        packed_fields(names.drop_last()) + padded_field(names.last())
    }
}

/// The block of component names the solver takes: a field per name and one
/// blank field after them.
pub open spec fn name_block(names: Seq<Seq<u8>>) -> Seq<u8> {
    packed_fields(names) + padded_field(Seq::empty())
}

/// The UTF-8 bytes of each text of a list.
pub open spec fn utf8_names(names: Seq<String>) -> Seq<Seq<u8>> {
    names.map_values(|s: String| encode_utf8(s@))
}

fn push_field(block: &mut Vec<u8>, name: &[u8])
    ensures
        final(block)@ == old(block)@ + padded_field(name@),
{
    let ghost start = block@;
    let mut j: usize = 0;
    while j < NAME_FIELD
        invariant
            j <= NAME_FIELD,
            block@ =~= start + padded_field(name@).take(j as int),
        decreases NAME_FIELD - j,
    {
        if j < name.len() {
            block.push(name[j]);
        } else {
            block.push(BLANK);
        }
        j = j + 1;
    }
    proof {
        assert(padded_field(name@).take(NAME_FIELD as int) =~= padded_field(name@));
    }
}

fn has_nul(bytes: &[u8]) -> (r: bool)
    ensures
        r == bytes@.contains(0u8),
{
    let mut i: usize = 0;
    while i < bytes.len()
        invariant
            i <= bytes@.len(),
            forall|j: int| 0 <= j < i ==> bytes@[j] != 0u8,
        decreases bytes@.len() - i,
    {
        if bytes[i] == 0 {
            assert(bytes@[i as int] == 0u8);
            return true;
        }
        i = i + 1;
    }
    false
}

/// Packs the names of the new system components into the block the solver
/// reads: each name's UTF-8 bytes cut or padded with blanks to
/// `NAME_FIELD`, then one blank field. A name holding a NUL cannot be handed
/// over and gives a format error.
pub fn component_name_block(names: &Vec<String>) -> (r: Result<Vec<u8>, ChemAppError>)
    ensures
        r.is_ok() == forall|k: int| 0 <= k < names@.len() ==> !encode_utf8(#[trigger] names@[k]@).contains(0u8),
        r matches Ok(block) ==> block@ == name_block(utf8_names(names@)),
        r matches Err(e) ==> e is FormatError,
{
    let mut block: Vec<u8> = Vec::new();
    let mut k: usize = 0;
    while k < names.len()
        invariant
            k <= names@.len(),
            block@ =~= packed_fields(utf8_names(names@.take(k as int))),
            forall|i: int| 0 <= i < k ==> !encode_utf8(#[trigger] names@[i]@).contains(0u8),
        decreases names@.len() - k,
    {
        let bytes = names[k].as_str().as_bytes();
        if has_nul(bytes) {
            let message = String::from_str(names[k].as_str()).concat(" holds a NUL character");
            return Err(ChemAppError::FormatError(message));
        }
        push_field(&mut block, bytes);
        proof {
            let next = names@.take(k as int + 1);
            assert(next.drop_last() =~= names@.take(k as int));
            assert(utf8_names(next).drop_last() =~= utf8_names(names@.take(k as int)));
            assert(utf8_names(next).last() == encode_utf8(names@[k as int]@));
        }
        k = k + 1;
    }
    let empty: Vec<u8> = Vec::new();
    push_field(&mut block, empty.as_slice());
    proof {
        assert(names@.take(names@.len() as int) =~= names@);
        assert(empty@ =~= Seq::<u8>::empty());
    }
    Ok(block)
}

/// The array sizes of the loaded thermochemical system, as the solver
/// reports them.
pub struct SystemDimensions {
    pub nconstituents: i32,
    pub ncomponents: i32,
    pub nmixtures: i32,
    pub nexcess_gibbs: i32,
    pub nexcess_magnetic: i32,
    pub nsublattices: i32,
    pub nspecies: i32,
    pub nconstituents_mqm: i32,
    pub nranges_constituent: i32,
    pub nranges: i32,
    pub ndependent: i32,
}

impl SystemDimensions {
    /// All sizes zero, ready to be filled by the solver.
    pub fn new() -> (r: SystemDimensions)
        ensures
            r.nconstituents == 0,
            r.ncomponents == 0,
            r.nmixtures == 0,
            r.nexcess_gibbs == 0,
            r.nexcess_magnetic == 0,
            r.nsublattices == 0,
            r.nspecies == 0,
            r.nconstituents_mqm == 0,
            r.nranges_constituent == 0,
            r.nranges == 0,
            r.ndependent == 0,
    {
        SystemDimensions {
            nconstituents: 0,
            ncomponents: 0,
            nmixtures: 0,
            nexcess_gibbs: 0,
            nexcess_magnetic: 0,
            nsublattices: 0,
            nspecies: 0,
            nconstituents_mqm: 0,
            nranges_constituent: 0,
            nranges: 0,
            ndependent: 0,
        }
    }
}

} // verus!

//! Contract values by their bytes, and the calls into the ledger's value
//! library that spell and take apart such bytes.

use rs_zephyr_sdk::stellar_xdr::next::{Limits, ReadXdr, ScVal, WriteXdr};
use rs_zephyr_sdk::utils::to_scval_symbol;
use vstd::prelude::*;
use vstd::string::StringSliceAdditionalSpecFns;

verus! {

/// How deep a value may nest for the pipeline to take it apart: the bound
/// that the ledger's own host puts on the values it lets contracts emit.
pub const DECODE_DEPTH: u32 = 500;

/// A contract value, held in its canonical wire form.
///
/// The pipeline never looks into most of the values it moves (titles,
/// addresses, amounts): it compares them, copies them and stores them. Two
/// values are equal exactly when their wire forms are equal, and the table
/// store holds and matches columns by wire form, so the bytes are the value.
#[derive(Clone, Debug, PartialEq, Eq)]
pub struct Val {
    pub xdr: Vec<u8>,
}

impl View for Val {
    type V = Seq<u8>;

    open spec fn view(&self) -> Seq<u8> {
        self.xdr@
    }
}

/// The 32-byte identifier of a contract instance.
#[derive(Clone, Copy, Debug, PartialEq, Eq)]
pub struct ContractId {
    pub bytes: [u8; 32],
}

impl View for ContractId {
    type V = Seq<u8>;

    open spec fn view(&self) -> Seq<u8> {
        self.bytes@
    }
}

/// The wire forms of a sequence of values, one for one.
pub open spec fn views(items: Seq<Val>) -> Seq<Seq<u8>> {
    items.map_values(|v: Val| v@)
}

/// The wire forms of the elements of a value, where it has elements.
pub open spec fn items_view(items: Option<Vec<Val>>) -> Option<Seq<Seq<u8>>> {
    match items {
        Some(values) => Some(views(values@)),
        None => None,
    }
}

/// The byte strings of a list, one for one.
pub open spec fn byte_strings(list: Seq<Vec<u8>>) -> Seq<Seq<u8>> {
    list.map_values(|v: Vec<u8>| v@)
}

/// The wire form of the unsigned 32-bit value `n`: the tag of that kind of
/// value, then `n` in four bytes, most significant first.
pub open spec fn u32_xdr(n: u32) -> Seq<u8> {
    seq![
        0u8,
        0u8,
        0u8,
        3u8,
        (n / 0x100_0000) as u8,
        (n / 0x1_0000 % 0x100) as u8,
        (n / 0x100 % 0x100) as u8,
        (n % 0x100) as u8,
    ]
}

/// The wire form of the void value: its tag and nothing else.
pub open spec fn void_xdr() -> Seq<u8> {
    seq![0u8, 0u8, 0u8, 1u8]
}

/// The number of zero bytes that fill `len` bytes up to a multiple of four.
pub open spec fn pad_len(len: nat) -> nat {
    ((4 - len % 4) % 4) as nat
}

/// The wire form of the symbol spelled by the bytes `name`, of which there
/// are at most 32: the tag of symbols, the length in four bytes, the bytes,
/// and zeros up to a multiple of four.
pub open spec fn symbol_xdr(name: Seq<u8>) -> Seq<u8> {
    seq![0u8, 0u8, 0u8, 15u8, 0u8, 0u8, 0u8, name.len() as u8] + name + Seq::new(
        pad_len(name.len()),
        |i: int| 0u8,
    )
}

/// What the reader of wire forms makes of the bytes `xdr` under the depth
/// limit `depth`: the elements of the value, each in its own wire form,
/// where it reads a vector value out of all the bytes; `None` where it reads
/// another value or rejects the bytes.
pub uninterp spec fn vec_items_of(xdr: Seq<u8>, depth: u32) -> Option<Seq<Seq<u8>>>;

/// Whether two byte strings are the same.
pub fn bytes_eq(a: &Vec<u8>, b: &Vec<u8>) -> (r: bool)
    ensures
        r == (a@ == b@),
{
    if a.len() != b.len() {
        return false;
    }
    let mut i: usize = 0;
    while i < a.len()
        invariant
            a.len() == b.len(),
            i <= a.len(),
            forall|j: int| 0 <= j < i ==> a@[j] == b@[j],
        decreases a.len() - i,
    {
        if a[i] != b[i] {
            return false;
        }
        i += 1;
    }
    assert(a@ =~= b@);
    true
}

/// A copy of a byte string.
pub fn bytes_copy(a: &Vec<u8>) -> (r: Vec<u8>)
    ensures
        r@ == a@,
{
    let r = a.clone();
    assert(r@ =~= a@);
    r
}

/// Calls `ScVal::U32(n).to_xdr` of stellar_xdr, without limits.
///
/// Claims the eight bytes that the writer puts out for this variant: the
/// discriminant 3 as a big-endian 32-bit integer, then `n` big-endian.
#[verifier::external_body]
pub(crate) fn encode_u32(n: u32) -> (r: Val)
    ensures
        r@ == u32_xdr(n),
{
    Val { xdr: ScVal::U32(n).to_xdr(Limits::none()).unwrap_or_default() }
}

/// Calls `ScVal::Void.to_xdr` of stellar_xdr, without limits.
///
/// Claims the four bytes that the writer puts out for this variant: the
/// discriminant 1 as a big-endian 32-bit integer, and no body.
#[verifier::external_body]
pub(crate) fn encode_void() -> (r: Val)
    ensures
        r@ == void_xdr(),
{
    Val { xdr: ScVal::Void.to_xdr(Limits::none()).unwrap_or_default() }
}

/// Calls `utils::to_scval_symbol` of rs_zephyr_sdk and puts its result in wire
/// form with `to_xdr` of stellar_xdr, without limits.
///
/// The first succeeds exactly on a name of at most 32 bytes, and then yields
/// the symbol that holds those bytes; nothing else about the name is tested.
/// The second writes the discriminant 15, the length, the bytes and the
/// padding, each as `symbol_xdr` lays them out, and does not fail on a symbol.
#[verifier::external_body]
pub(crate) fn encode_symbol(name: &str) -> (r: Option<Val>)
    ensures
        r is Some <==> name.spec_bytes().len() <= 32,
        r matches Some(v) ==> v@ == symbol_xdr(name.spec_bytes()),
{
    match to_scval_symbol(name) {
        Ok(symbol) => Some(Val { xdr: symbol.to_xdr(Limits::none()).unwrap_or_default() }),
        Err(_) => None,
    }
}

/// Calls `ScVal::from_xdr` of stellar_xdr on the bytes of `v`, with the depth
/// limit `depth` and the length of `v` as the length limit, and hands out the
/// elements of a vector value, each put back in wire form by `to_xdr`.
///
/// The reader calls itself once for each level of nesting, and the depth
/// limit is all that stops it: the limit is kept to `DECODE_DEPTH`, under
/// which the reader returns on every input. The reader is a function of the
/// bytes and the limits alone; the contract names what comes out and claims
/// nothing more of it.
#[verifier::external_body]
pub(crate) fn decode_vec_items(v: &Val, depth: u32) -> (r: Option<Vec<Val>>)
    requires
        depth <= DECODE_DEPTH,
    ensures
        items_view(r) == vec_items_of(v@, depth),
{
    match ScVal::from_xdr(&v.xdr, Limits { depth, len: v.xdr.len() }) {
        Ok(ScVal::Vec(Some(items))) => items.iter().map(
            |item| item.to_xdr(Limits::none()).ok().map(|xdr| Val { xdr }),
        ).collect(),
        _ => None,
    }
}

impl Val {
    /// The value with the given wire form.
    pub fn new(xdr: Vec<u8>) -> (r: Val)
        ensures
            r@ == xdr@,
    {
        Val { xdr }
    }

    /// A copy of this value.
    pub fn copy(&self) -> (r: Val)
        ensures
            r@ == self@,
    {
        Val { xdr: bytes_copy(&self.xdr) }
    }

    /// Whether this value and `other` are the same value.
    pub fn same(&self, other: &Val) -> (r: bool)
        ensures
            r == (self@ == other@),
    {
        bytes_eq(&self.xdr, &other.xdr)
    }
}

impl ContractId {
    /// Whether this identifier and `other` are the same.
    pub fn same(&self, other: &ContractId) -> (r: bool)
        ensures
            r == (self@ == other@),
    {
        let mut i: usize = 0;
        while i < 32
            invariant
                i <= 32,
                forall|j: int| 0 <= j < i ==> self.bytes@[j] == other.bytes@[j],
            decreases 32 - i,
        {
            if self.bytes[i] != other.bytes[i] {
                return false;
            }
            i += 1;
        }
        assert(self.bytes@ =~= other.bytes@);
        true
    }

    /// The identifier as a byte string, as a table column holds it.
    pub fn to_bytes(&self) -> (r: Vec<u8>)
        ensures
            r@ == self@,
    {
        let mut out: Vec<u8> = Vec::new();
        let mut i: usize = 0;
        while i < 32
            invariant
                i <= 32,
                out@.len() == i,
                forall|j: int| 0 <= j < i ==> out@[j] == self.bytes@[j],
            decreases 32 - i,
        {
            out.push(self.bytes[i]);
            i += 1;
        }
        assert(out@ =~= self.bytes@);
        out
    }

    /// The identifier that a table column holds, where the column holds one:
    /// an identifier has 32 bytes.
    pub fn from_bytes(bytes: &Vec<u8>) -> (r: Option<ContractId>)
        ensures
            r is Some <==> bytes@.len() == 32,
            r matches Some(id) ==> id@ == bytes@,
    {
        if bytes.len() != 32 {
            return None;
        }
        let mut id = ContractId { bytes: [0u8; 32] };
        let mut i: usize = 0;
        while i < 32
            invariant
                i <= 32,
                bytes@.len() == 32,
                forall|j: int| 0 <= j < i ==> id.bytes@[j] == bytes@[j],
            decreases 32 - i,
        {
            id.bytes[i] = bytes[i];
            i += 1;
        }
        assert(id.bytes@ =~= bytes@);
        Some(id)
    }
}

} // verus!

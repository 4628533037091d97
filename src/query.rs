//! Query parameters and their fixed-order wire encoding.

use vstd::prelude::*;
use crate::types::{
    be_u16, be_u32, be_u64, put_short_string, put_u16, put_u32, put_u64, short_string_bytes, utf8,
    MAX_LONG_LEN, MAX_SHORT_LEN,
};

verus! {

/// Replication acknowledgement that a request asks for.
#[derive(Debug, PartialEq, Eq, Structural, Clone, Copy)]
pub enum Consistency {
    Any,
    One,
    Two,
    Three,
    Quorum,
    All,
    LocalQuorum,
    EachQuorum,
    Serial,
    LocalSerial,
    LocalOne,
}

/// The 2-byte code of each consistency level.
pub open spec fn consistency_code(c: Consistency) -> u16 {
    match c {
        Consistency::Any => 0x0000,
        Consistency::One => 0x0001,
        Consistency::Two => 0x0002,
        Consistency::Three => 0x0003,
        Consistency::Quorum => 0x0004,
        Consistency::All => 0x0005,
        Consistency::LocalQuorum => 0x0006,
        Consistency::EachQuorum => 0x0007,
        Consistency::Serial => 0x0008,
        Consistency::LocalSerial => 0x0009,
        Consistency::LocalOne => 0x000A,
    }
}

impl Consistency {
    /// The wire code of this level.
    pub fn code(&self) -> (r: u16)
        ensures
            r == consistency_code(*self),
    {
        match *self {
            Consistency::Any => 0x0000,
            Consistency::One => 0x0001,
            Consistency::Two => 0x0002,
            Consistency::Three => 0x0003,
            Consistency::Quorum => 0x0004,
            Consistency::All => 0x0005,
            Consistency::LocalQuorum => 0x0006,
            Consistency::EachQuorum => 0x0007,
            Consistency::Serial => 0x0008,
            Consistency::LocalSerial => 0x0009,
            Consistency::LocalOne => 0x000A,
        }
    }
}

/// A bound value: bytes, null, or left unset.
#[derive(Debug, Clone)]
pub enum Value {
    Bytes(Vec<u8>),
    Null,
    NotSet,
}

/// Values bound to a query, by position or by name (in the order given).
#[derive(Debug, Clone)]
pub enum QueryValues {
    SimpleValues(Vec<Value>),
    NamedValues(Vec<(String, Value)>),
}

/// `[bytes]`: a 4-byte signed length and the bytes; length -1 stands for none.
#[derive(Debug, Clone)]
pub struct CBytes {
    pub bytes: Option<Vec<u8>>,
}

/// The parameter bundle of a query.
#[derive(Debug, Clone)]
pub struct QueryParams {
    pub consistency: Consistency,
    pub with_names: bool,
    pub values: Option<QueryValues>,
    pub page_size: Option<i32>,
    pub paging_state: Option<CBytes>,
    pub serial_consistency: Option<Consistency>,
    pub timestamp: Option<i64>,
    pub is_idempotent: bool,
    pub keyspace: Option<String>,
    pub token: Option<i64>,
    pub routing_key: Option<Vec<Value>>,
}

/// A query: its text and its parameters.
#[derive(Debug, Clone)]
pub struct Query {
    pub query: String,
    pub params: QueryParams,
}

pub open spec fn value_fits(v: &Value) -> bool {
    v matches Value::Bytes(b) ==> b@.len() <= MAX_LONG_LEN
}

pub open spec fn value_bytes(v: &Value) -> Seq<u8> {
    match v {
        Value::Bytes(b) => be_u32(b@.len() as u32) + b@,
        Value::Null => be_u32(0xFFFF_FFFF),
        Value::NotSet => be_u32(0xFFFF_FFFE),
    }
}

pub open spec fn named_fits(p: (String, Value)) -> bool {
    utf8(&p.0).len() <= MAX_SHORT_LEN && value_fits(&p.1)
}

pub open spec fn named_bytes(p: (String, Value)) -> Seq<u8> {
    short_string_bytes(&p.0) + value_bytes(&p.1)
}

pub open spec fn simple_values_bytes(s: Seq<Value>) -> Seq<u8>
    decreases s.len(),
{
    if s.len() == 0 {
        Seq::empty()
    } else {
        simple_values_bytes(s.drop_last()) + value_bytes(&s.last())
    }
}

pub open spec fn named_values_bytes(s: Seq<(String, Value)>) -> Seq<u8>
    decreases s.len(),
{
    if s.len() == 0 {
        Seq::empty()
    } else {
        named_values_bytes(s.drop_last()) + named_bytes(s.last())
    }
}

/// Whether every length in the values fits its prefix.
pub open spec fn query_values_fit(v: &QueryValues) -> bool {
    match v {
        QueryValues::SimpleValues(s) => s@.len() <= MAX_SHORT_LEN && forall|i: int|
            0 <= i < s@.len() ==> value_fits(#[trigger] &s@[i]),
        QueryValues::NamedValues(s) => s@.len() <= MAX_SHORT_LEN && forall|i: int|
            0 <= i < s@.len() ==> named_fits(#[trigger] s@[i]),
    }
}

/// The value count in two bytes, then each value in order.
pub open spec fn query_values_bytes(v: &QueryValues) -> Seq<u8> {
    match v {
        QueryValues::SimpleValues(s) => be_u16(s@.len() as u16) + simple_values_bytes(s@),
        QueryValues::NamedValues(s) => be_u16(s@.len() as u16) + named_values_bytes(s@),
    }
}

pub open spec fn cbytes_bytes(c: &CBytes) -> Seq<u8> {
    match c.bytes {
        Some(b) => be_u32(b@.len() as u32) + b@,
        None => be_u32(0xFFFF_FFFF),
    }
}

/// Flag bits of the parameter bundle.
pub const VALUES_FLAG: u8 = 0x01;
pub const PAGE_SIZE_FLAG: u8 = 0x04;
pub const PAGING_STATE_FLAG: u8 = 0x08;
pub const SERIAL_CONSISTENCY_FLAG: u8 = 0x10;
pub const TIMESTAMP_FLAG: u8 = 0x20;
pub const WITH_NAMES_FLAG: u8 = 0x40;
pub const KEYSPACE_FLAG: u8 = 0x80;

/// The flag byte: one bit for each optional field that is present.
pub open spec fn params_flags(p: &QueryParams) -> u8 {
    ((if p.values is Some { VALUES_FLAG as int } else { 0 })
        + (if p.page_size is Some { PAGE_SIZE_FLAG as int } else { 0 })
        + (if p.paging_state is Some { PAGING_STATE_FLAG as int } else { 0 })
        + (if p.serial_consistency is Some { SERIAL_CONSISTENCY_FLAG as int } else { 0 })
        + (if p.timestamp is Some { TIMESTAMP_FLAG as int } else { 0 })
        + (if p.with_names { WITH_NAMES_FLAG as int } else { 0 })
        + (if p.keyspace is Some { KEYSPACE_FLAG as int } else { 0 })) as u8
}

/// Each bit of the flag byte is set exactly when its field is present.
pub proof fn lemma_flag_bits(p: &QueryParams)
    ensures
        (params_flags(p) & VALUES_FLAG == VALUES_FLAG) == p.values is Some,
        (params_flags(p) & PAGE_SIZE_FLAG == PAGE_SIZE_FLAG) == p.page_size is Some,
        (params_flags(p) & PAGING_STATE_FLAG == PAGING_STATE_FLAG) == p.paging_state is Some,
        (params_flags(p) & SERIAL_CONSISTENCY_FLAG == SERIAL_CONSISTENCY_FLAG)
            == p.serial_consistency is Some,
        (params_flags(p) & TIMESTAMP_FLAG == TIMESTAMP_FLAG) == p.timestamp is Some,
        (params_flags(p) & WITH_NAMES_FLAG == WITH_NAMES_FLAG) == p.with_names,
        (params_flags(p) & KEYSPACE_FLAG == KEYSPACE_FLAG) == p.keyspace is Some,
{
    let a: u8 = if p.values is Some { 1 } else { 0 };
    let b: u8 = if p.page_size is Some { 1 } else { 0 };
    let c: u8 = if p.paging_state is Some { 1 } else { 0 };
    let d: u8 = if p.serial_consistency is Some { 1 } else { 0 };
    let e: u8 = if p.timestamp is Some { 1 } else { 0 };
    let g: u8 = if p.with_names { 1 } else { 0 };
    let h: u8 = if p.keyspace is Some { 1 } else { 0 };
    let f: u8 = (a * 0x01 + b * 0x04 + c * 0x08 + d * 0x10 + e * 0x20 + g * 0x40 + h * 0x80) as u8;
    assert(f == params_flags(p));
    assert(a <= 1 && b <= 1 && c <= 1 && d <= 1 && e <= 1 && g <= 1 && h <= 1 ==> {
        let f2: u8 = (a * 1 + b * 4 + c * 8 + d * 16 + e * 32 + g * 64 + h * 128) as u8;
        &&& (f2 & 1 == 1) == (a == 1)
        &&& (f2 & 4 == 4) == (b == 1)
        &&& (f2 & 8 == 8) == (c == 1)
        &&& (f2 & 16 == 16) == (d == 1)
        &&& (f2 & 32 == 32) == (e == 1)
        &&& (f2 & 64 == 64) == (g == 1)
        &&& (f2 & 128 == 128) == (h == 1)
    }) by (bit_vector);
}

/// Whether every length in the bundle fits its prefix.
pub open spec fn params_fit(p: &QueryParams) -> bool {
    &&& (p.values matches Some(v) ==> query_values_fit(&v))
    &&& (p.paging_state matches Some(c) ==> (c.bytes matches Some(b) ==> b@.len() <= MAX_LONG_LEN))
    &&& (p.keyspace matches Some(k) ==> utf8(&k).len() <= MAX_SHORT_LEN)
}

pub open spec fn values_part(p: &QueryParams) -> Seq<u8> {
    match p.values {
        Some(v) => query_values_bytes(&v),
        None => Seq::empty(),
    }
}

pub open spec fn page_size_part(p: &QueryParams) -> Seq<u8> {
    match p.page_size {
        Some(n) => be_u32(n as u32),
        None => Seq::empty(),
    }
}

pub open spec fn paging_state_part(p: &QueryParams) -> Seq<u8> {
    match p.paging_state {
        Some(c) => cbytes_bytes(&c),
        None => Seq::empty(),
    }
}

pub open spec fn serial_consistency_part(p: &QueryParams) -> Seq<u8> {
    match p.serial_consistency {
        Some(c) => be_u16(consistency_code(c)),
        None => Seq::empty(),
    }
}

pub open spec fn timestamp_part(p: &QueryParams) -> Seq<u8> {
    match p.timestamp {
        Some(t) => be_u64(t as u64),
        None => Seq::empty(),
    }
}

pub open spec fn keyspace_part(p: &QueryParams) -> Seq<u8> {
    match p.keyspace {
        Some(k) => short_string_bytes(&k),
        None => Seq::empty(),
    }
}

/// Consistency, flag byte, then the present optional fields in their fixed order.
pub open spec fn params_bytes(p: &QueryParams) -> Seq<u8> {
    be_u16(consistency_code(p.consistency)) + seq![params_flags(p)] + values_part(p)
        + page_size_part(p) + paging_state_part(p) + serial_consistency_part(p)
        + timestamp_part(p) + keyspace_part(p)
}

fn put_value(out: &mut Vec<u8>, v: &Value)
    requires
        value_fits(v),
    ensures
        final(out)@ == old(out)@ + value_bytes(v),
{
    match v {
        Value::Bytes(b) => {
            put_u32(out, b.len() as u32);
            let ghost mid = out@;
            out.extend_from_slice(b.as_slice());
            assert(final(out)@ =~= mid + b@);
            assert(final(out)@ =~= old(out)@ + value_bytes(v));
        },
        Value::Null => put_u32(out, 0xFFFF_FFFF),
        Value::NotSet => put_u32(out, 0xFFFF_FFFE),
    }
}

fn put_query_values(out: &mut Vec<u8>, v: &QueryValues)
    requires
        query_values_fit(v),
    ensures
        final(out)@ == old(out)@ + query_values_bytes(v),
{
    match v {
        QueryValues::SimpleValues(s) => {
            put_u16(out, s.len() as u16);
            let ghost start = out@;
            let mut i: usize = 0;
            while i < s.len()
                invariant
                    i <= s@.len(),
                    forall|j: int| 0 <= j < s@.len() ==> value_fits(#[trigger] &s@[j]),
                    out@ == start + simple_values_bytes(s@.take(i as int)),
                decreases s.len() - i,
            {
                put_value(out, &s[i]);
                assert(s@.take(i as int + 1).drop_last() =~= s@.take(i as int));
                i = i + 1;
                assert(out@ =~= start + simple_values_bytes(s@.take(i as int)));
            }
            assert(s@.take(i as int) =~= s@);
            assert(out@ =~= old(out)@ + query_values_bytes(v));
        },
        QueryValues::NamedValues(s) => {
            put_u16(out, s.len() as u16);
            let ghost start = out@;
            let mut i: usize = 0;
            while i < s.len()
                invariant
                    i <= s@.len(),
                    forall|j: int| 0 <= j < s@.len() ==> named_fits(#[trigger] s@[j]),
                    out@ == start + named_values_bytes(s@.take(i as int)),
                decreases s.len() - i,
            {
                assert(named_fits(s@[i as int]));
                put_short_string(out, &s[i].0);
                put_value(out, &s[i].1);
                assert(s@.take(i as int + 1).drop_last() =~= s@.take(i as int));
                i = i + 1;
                assert(out@ =~= start + named_values_bytes(s@.take(i as int)));
            }
            assert(s@.take(i as int) =~= s@);
            assert(out@ =~= old(out)@ + query_values_bytes(v));
        },
    }
}

impl QueryParams {
    /// The flag byte: one bit for each optional field that is present.
    pub fn flags(&self) -> (r: u8)
        ensures
            r == params_flags(self),
    {
        let mut f: u8 = 0;
        if self.values.is_some() {
            f = f + VALUES_FLAG;
        }
        if self.page_size.is_some() {
            f = f + PAGE_SIZE_FLAG;
        }
        if self.paging_state.is_some() {
            f = f + PAGING_STATE_FLAG;
        }
        if self.serial_consistency.is_some() {
            f = f + SERIAL_CONSISTENCY_FLAG;
        }
        if self.timestamp.is_some() {
            f = f + TIMESTAMP_FLAG;
        }
        if self.with_names {
            f = f + WITH_NAMES_FLAG;
        }
        if self.keyspace.is_some() {
            f = f + KEYSPACE_FLAG;
        }
        f
    }

    /// Appends the bundle's wire form to `out`.
    #[verifier::spinoff_prover]
    #[verifier::rlimit(40)]
    pub fn serialize(&self, out: &mut Vec<u8>)
        requires
            params_fit(self),
        ensures
            final(out)@ == old(out)@ + params_bytes(self),
    {
        let ghost start = old(out)@;
        put_u16(out, self.consistency.code());
        let flags = self.flags();
        out.push(flags);
        let ghost s1 = out@;
        assert(s1 =~= start + be_u16(consistency_code(self.consistency)) + seq![params_flags(self)]);
        self.put_values(out);
        let ghost s2 = out@;
        self.put_page_size(out);
        let ghost s3 = out@;
        self.put_paging_state(out);
        let ghost s4 = out@;
        self.put_serial_consistency(out);
        let ghost s5 = out@;
        self.put_timestamp(out);
        let ghost s6 = out@;
        self.put_keyspace(out);
        assert(out@ =~= s1 + values_part(self) + page_size_part(self) + paging_state_part(self)
            + serial_consistency_part(self) + timestamp_part(self) + keyspace_part(self));
        assert(out@ =~= start + params_bytes(self));
    }

    fn put_values(&self, out: &mut Vec<u8>)
        requires
            params_fit(self),
        ensures
            final(out)@ == old(out)@ + values_part(self),
    {
        if let Some(v) = &self.values {
            put_query_values(out, v);
        } else {
            assert(old(out)@ =~= old(out)@ + values_part(self));
        }
    }

    fn put_page_size(&self, out: &mut Vec<u8>)
        ensures
            final(out)@ == old(out)@ + page_size_part(self),
    {
        if let Some(n) = self.page_size {
            put_u32(out, n as u32);
        } else {
            assert(old(out)@ =~= old(out)@ + page_size_part(self));
        }
    }

    fn put_paging_state(&self, out: &mut Vec<u8>)
        requires
            params_fit(self),
        ensures
            final(out)@ == old(out)@ + paging_state_part(self),
    {
        if let Some(c) = &self.paging_state {
            match &c.bytes {
                Some(b) => {
                    put_u32(out, b.len() as u32);
                    let ghost mid = out@;
                    out.extend_from_slice(b.as_slice());
                    assert(out@ =~= mid + b@);
                    assert(out@ =~= old(out)@ + paging_state_part(self));
                },
                None => put_u32(out, 0xFFFF_FFFF),
            }
        } else {
            assert(old(out)@ =~= old(out)@ + paging_state_part(self));
        }
    }

    fn put_serial_consistency(&self, out: &mut Vec<u8>)
        ensures
            final(out)@ == old(out)@ + serial_consistency_part(self),
    {
        if let Some(c) = self.serial_consistency {
            put_u16(out, c.code());
        } else {
            assert(old(out)@ =~= old(out)@ + serial_consistency_part(self));
        }
    }

    fn put_timestamp(&self, out: &mut Vec<u8>)
        ensures
            final(out)@ == old(out)@ + timestamp_part(self),
    {
        if let Some(t) = self.timestamp {
            put_u64(out, t as u64);
        } else {
            assert(old(out)@ =~= old(out)@ + timestamp_part(self));
        }
    }

    fn put_keyspace(&self, out: &mut Vec<u8>)
        requires
            params_fit(self),
        ensures
            final(out)@ == old(out)@ + keyspace_part(self),
    {
        if let Some(k) = &self.keyspace {
            put_short_string(out, k);
        } else {
            assert(old(out)@ =~= old(out)@ + keyspace_part(self));
        }
    }
}

} // verus!

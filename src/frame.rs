//! Frames and the body of a QUERY request.

use vstd::prelude::*;
use crate::compression::{decoded, encoded, Compression, CompressionError};
use crate::query::{params_bytes, params_fit, Consistency, CBytes, Query, QueryParams, QueryValues};
use crate::types::{long_string_bytes, put_long_string, utf8, MAX_LONG_LEN};

verus! {

/// Protocol version of a frame.
#[derive(Debug, PartialEq, Eq, Structural, Clone, Copy)]
pub enum Version {
    V3,
    V4,
    V5,
}

/// Whether a frame goes to the server or comes from it.
#[derive(Debug, PartialEq, Eq, Structural, Clone, Copy)]
pub enum Direction {
    Request,
    Response,
}

/// Kind of message that a frame carries.
#[derive(Debug, PartialEq, Eq, Structural, Clone, Copy)]
pub enum Opcode {
    Error,
    Startup,
    Ready,
    Authenticate,
    Options,
    Supported,
    Query,
    Result,
    Prepare,
    Execute,
    Register,
    Event,
    Batch,
    AuthChallenge,
    AuthResponse,
    AuthSuccess,
}

/// The frame's flag byte: bit 0 compression, bit 1 tracing.
#[derive(Debug, PartialEq, Eq, Structural, Clone, Copy)]
pub struct Flags {
    pub bits: u8,
}

/// A string of the `[long string]` kind: 4-byte length, then UTF-8 bytes.
#[derive(Debug, Clone)]
pub struct CStringLong {
    pub string: String,
}

/// Body of a QUERY request.
#[derive(Debug)]
pub struct BodyReqQuery {
    /// Query string.
    pub query: CStringLong,
    /// Query parameters.
    pub query_params: QueryParams,
}

/// One protocol message.
#[derive(Debug)]
pub struct Frame {
    pub version: Version,
    pub direction: Direction,
    pub flags: Flags,
    pub opcode: Opcode,
    pub body: Vec<u8>,
    pub tracing_id: Option<u128>,
    pub warnings: Vec<String>,
}

/// Whether every length in a query body fits its prefix.
pub open spec fn body_fits(b: &BodyReqQuery) -> bool {
    utf8(&b.query.string).len() <= MAX_LONG_LEN && params_fit(&b.query_params)
}

/// The query string, then the parameter bundle.
pub open spec fn body_bytes(b: &BodyReqQuery) -> Seq<u8> {
    long_string_bytes(&b.query.string) + params_bytes(&b.query_params)
}

/// The bundle that a QUERY body built from these parts carries: no
/// keyspace and no routing hints.
pub open spec fn req_params(
    consistency: Consistency,
    values: Option<QueryValues>,
    with_names: bool,
    page_size: Option<i32>,
    paging_state: Option<CBytes>,
    serial_consistency: Option<Consistency>,
    timestamp: Option<i64>,
    is_idempotent: bool,
) -> QueryParams {
    QueryParams {
        consistency,
        with_names,
        values,
        page_size,
        paging_state,
        serial_consistency,
        timestamp,
        is_idempotent,
        keyspace: None,
        token: None,
        routing_key: None,
    }
}

impl BodyReqQuery {
    /// A QUERY body with no keyspace and no routing hints.
    pub fn new(
        query: String,
        consistency: Consistency,
        values: Option<QueryValues>,
        with_names: bool,
        page_size: Option<i32>,
        paging_state: Option<CBytes>,
        serial_consistency: Option<Consistency>,
        timestamp: Option<i64>,
        is_idempotent: bool,
    ) -> (r: BodyReqQuery)
        ensures
            r.query.string == query,
            r.query_params == req_params(
                consistency,
                values,
                with_names,
                page_size,
                paging_state,
                serial_consistency,
                timestamp,
                is_idempotent,
            ),
    {
        BodyReqQuery {
            query: CStringLong { string: query },
            query_params: QueryParams {
                consistency,
                with_names,
                values,
                page_size,
                paging_state,
                serial_consistency,
                timestamp,
                is_idempotent,
                keyspace: None,
                token: None,
                routing_key: None,
            },
        }
    }

    /// Appends the body's wire form to `out`.
    pub fn serialize(&self, out: &mut Vec<u8>)
        requires
            body_fits(self),
        ensures
            final(out)@ == old(out)@ + body_bytes(self),
    {
        put_long_string(out, &self.query.string);
        self.query_params.serialize(out);
        assert(final(out)@ =~= old(out)@ + body_bytes(self));
    }

    /// The body's wire form.
    pub fn serialize_to_vec(&self) -> (r: Vec<u8>)
        requires
            body_fits(self),
        ensures
            r@ == body_bytes(self),
    {
        let mut out: Vec<u8> = Vec::new();
        self.serialize(&mut out);
        assert(out@ =~= body_bytes(self));
        out
    }
}

/// The compression bit of the flag byte.
pub const COMPRESSION_FLAG: u8 = 0x01;

/// Whether two frames agree on all but flags and body.
pub open spec fn same_but_body(a: &Frame, b: &Frame) -> bool {
    &&& a.version == b.version
    &&& a.direction == b.direction
    &&& a.opcode == b.opcode
    &&& a.tracing_id == b.tracing_id
    &&& a.warnings@ == b.warnings@
}

/// Whether the frame's flags mark its body as compressed.
pub open spec fn is_compressed(f: &Frame) -> bool {
    f.flags.bits & COMPRESSION_FLAG == COMPRESSION_FLAG
}

impl Frame {
    /// Applies the negotiated compression to an outgoing frame: its body is
    /// encoded and the compression flag set. A STARTUP frame, and every frame
    /// where no compression was negotiated, is left as it is.
    pub fn compress_body(self, compression: Compression) -> (r: Result<Frame, CompressionError>)
        ensures
            (self.opcode == Opcode::Startup || compression == Compression::NoCompression) ==> (r matches Ok(
                f,
            ) && same_but_body(&f, &self) && f.flags == self.flags && f.body@ == self.body@),
            (self.opcode != Opcode::Startup && compression != Compression::NoCompression) ==> {
                &&& r is Ok <==> encoded(compression, self.body@) is Some
                &&& r matches Ok(f) ==> same_but_body(&f, &self) && f.flags.bits == (self.flags.bits
                    | COMPRESSION_FLAG) && encoded(compression, self.body@) == Some(f.body@)
            },
    {
        if matches!(self.opcode, Opcode::Startup) || matches!(compression, Compression::NoCompression) {
            return Ok(self);
        }
        let Frame { version, direction, flags, opcode, body, tracing_id, warnings } = self;
        match compression.encode(body) {
            Ok(c) => Ok(Frame {
                version,
                direction,
                flags: Flags { bits: flags.bits | COMPRESSION_FLAG },
                opcode,
                body: c,
                tracing_id,
                warnings,
            }),
            Err(e) => Err(e),
        }
    }

    /// Undoes the negotiated compression on an incoming frame whose flags
    /// mark its body as compressed; any other frame is left as it is.
    pub fn decompress_body(self, compression: Compression) -> (r: Result<Frame, CompressionError>)
        ensures
            (!is_compressed(&self) || compression == Compression::NoCompression) ==> (r matches Ok(f)
                && same_but_body(&f, &self) && f.flags == self.flags && f.body@ == self.body@),
            (is_compressed(&self) && compression != Compression::NoCompression) ==> {
                &&& r is Ok <==> decoded(compression, self.body@) is Some
                &&& r matches Ok(f) ==> same_but_body(&f, &self) && f.flags == self.flags
                    && decoded(compression, self.body@) == Some(f.body@)
            },
    {
        if self.flags.bits & COMPRESSION_FLAG != COMPRESSION_FLAG || matches!(
            compression,
            Compression::NoCompression
        ) {
            return Ok(self);
        }
        let Frame { version, direction, flags, opcode, body, tracing_id, warnings } = self;
        match compression.decode(body) {
            Ok(d) => Ok(Frame { version, direction, flags, opcode, body: d, tracing_id, warnings }),
            Err(e) => Err(e),
        }
    }

    /// A frame with the given header fields and body.
    pub fn new(
        version: Version,
        direction: Direction,
        flags: Flags,
        opcode: Opcode,
        body: Vec<u8>,
        tracing_id: Option<u128>,
        warnings: Vec<String>,
    ) -> (r: Frame)
        ensures
            r.version == version,
            r.direction == direction,
            r.flags == flags,
            r.opcode == opcode,
            r.body@ == body@,
            r.tracing_id == tracing_id,
            r.warnings@ == warnings@,
    {
        Frame { version, direction, flags, opcode, body, tracing_id, warnings }
    }

    /// A QUERY request frame whose body holds `query` and the given
    /// parameters, serialized in their fixed order. No I/O is done.
    pub fn new_req_query(
        query: String,
        consistency: Consistency,
        values: Option<QueryValues>,
        with_names: bool,
        page_size: Option<i32>,
        paging_state: Option<CBytes>,
        serial_consistency: Option<Consistency>,
        timestamp: Option<i64>,
        flags: Flags,
        is_idempotent: bool,
        version: Version,
    ) -> (r: Frame)
        requires
            body_fits(
                &BodyReqQuery {
                    query: CStringLong { string: query },
                    query_params: req_params(
                        consistency,
                        values,
                        with_names,
                        page_size,
                        paging_state,
                        serial_consistency,
                        timestamp,
                        is_idempotent,
                    ),
                },
            ),
        ensures
            r.version == version,
            r.direction == Direction::Request,
            r.flags == flags,
            r.opcode == Opcode::Query,
            r.body@ == long_string_bytes(&query) + params_bytes(
                &req_params(
                    consistency,
                    values,
                    with_names,
                    page_size,
                    paging_state,
                    serial_consistency,
                    timestamp,
                    is_idempotent,
                ),
            ),
            r.tracing_id is None,
            r.warnings@.len() == 0,
    {
        let body = BodyReqQuery::new(
            query,
            consistency,
            values,
            with_names,
            page_size,
            paging_state,
            serial_consistency,
            timestamp,
            is_idempotent,
        );
        Frame::new(
            version,
            Direction::Request,
            flags,
            Opcode::Query,
            body.serialize_to_vec(),
            None,
            Vec::new(),
        )
    }

    /// A QUERY request frame for `query`, whose whole parameter bundle,
    /// keyspace included, goes into the body. No I/O is done.
    pub fn new_query(query: Query, flags: Flags, version: Version) -> (r: Frame)
        requires
            utf8(&query.query).len() <= MAX_LONG_LEN,
            params_fit(&query.params),
        ensures
            r.version == version,
            r.direction == Direction::Request,
            r.flags == flags,
            r.opcode == Opcode::Query,
            r.body@ == long_string_bytes(&query.query) + params_bytes(&query.params),
            r.tracing_id is None,
            r.warnings@.len() == 0,
    {
        let body = BodyReqQuery {
            query: CStringLong { string: query.query },
            query_params: query.params,
        };
        Frame::new(
            version,
            Direction::Request,
            flags,
            Opcode::Query,
            body.serialize_to_vec(),
            None,
            Vec::new(),
        )
    }
}

} // verus!

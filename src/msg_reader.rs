//! Decoding of messages from their wire form. Every malformed buffer gives
//! a `DecodeError`; nothing is read past the end of a buffer.
use vstd::prelude::*;

use crate::msg_builder::{
    cell_list_bytes, header_bytes, preamble, request_bytes, response_bytes, u16_le_bytes,
};
use crate::types::{
    fresh_header, msg_type_value, Cell, CellList, Msg, MsgHdr, MsgModel, MsgType, Request,
    RequestModel, Response, ResponseModel, SixtopMsg, PREAMBLE_TYPE_MASK,
};

verus! {

const SIXTOP_HDR_SZ_BYTES: usize = 4;

const REQUEST_FIELDS_SZ_BYTES: usize = 4;

/// Why a buffer could not be decoded.
#[derive(Debug, Clone, Copy, PartialEq, Eq, Structural)]
pub enum DecodeError {
    /// The buffer ends before a field that the format requires.
    TruncatedInput,
    /// The bytes of a cell list are not a whole number of cells.
    TruncatedCellList,
    /// The type bits of the header hold a value that names no message type.
    UnknownMessageType,
    /// The message type is known but not handled here (a confirmation).
    UnsupportedMessageType,
}

/// The 16-bit value whose little-endian bytes are `lo`, `hi`.
pub open spec fn u16_from_le(lo: u8, hi: u8) -> u16 {
    (lo + 256 * hi) as u16
}

/// The cell whose encoding starts at position `i` of `b`.
pub open spec fn cell_at(b: Seq<u8>, i: int) -> Cell {
    Cell {
        slot_offset: u16_from_le(b[i], b[i + 1]),
        channel_offset: u16_from_le(b[i + 2], b[i + 3]),
    }
}

/// The cells encoded in `b`, four bytes each, in order. Meant for a length
/// that is a multiple of four (see `parse_cell_list`).
pub open spec fn cells_of(b: Seq<u8>) -> Seq<Cell>
    decreases b.len(),
{
    if b.len() < 4 {
        Seq::empty()
    } else {
        cells_of(b.subrange(0, b.len() - 4)).push(cell_at(b, b.len() - 4))
    }
}

pub open spec fn parse_cell_list(b: Seq<u8>) -> Result<Seq<Cell>, DecodeError> {
    if b.len() % 4 == 0 {
        Ok(cells_of(b))
    } else {
        Err(DecodeError::TruncatedCellList)
    }
}

/// The two type bits of a header's first byte.
pub open spec fn type_bits(b0: u8) -> u8 {
    (PREAMBLE_TYPE_MASK & b0) >> 2u8
}

pub open spec fn msg_type_of(v: u8) -> MsgType {
    if v == 0 {
        MsgType::REQUEST
    } else if v == 1 {
        MsgType::RESPONSE
    } else if v == 2 {
        MsgType::CONFIRMATION
    } else {
        MsgType::Unassigned
    }
}

pub open spec fn parse_header(b: Seq<u8>) -> Result<MsgHdr, DecodeError> {
    if b.len() < 4 {
        Err(DecodeError::TruncatedInput)
    } else if type_bits(b[0]) >= 3 {
        Err(DecodeError::UnknownMessageType)
    } else {
        Ok(MsgHdr { msg_type: msg_type_of(type_bits(b[0])), code: b[1], sfid: b[2], seqnum: b[3] })
    }
}

/// The body of a request with header `h`: metadata, cell options, number of
/// cells, then the cell list.
pub open spec fn parse_request_body(h: MsgHdr, p: Seq<u8>) -> Result<RequestModel, DecodeError> {
    if p.len() < 4 {
        Err(DecodeError::TruncatedInput)
    } else {
        match parse_cell_list(p.subrange(4, p.len() as int)) {
            Err(e) => Err(e),
            Ok(cells) => Ok(
                RequestModel {
                    header: h,
                    metadata: u16_from_le(p[0], p[1]),
                    cell_options: p[2],
                    num_cells: p[3],
                    cell_list: cells,
                },
            ),
        }
    }
}

/// What a buffer decodes to.
pub open spec fn parse_message(b: Seq<u8>) -> Result<MsgModel, DecodeError> {
    match parse_header(b) {
        Err(e) => Err(e),
        Ok(h) => {
            let payload = b.subrange(4, b.len() as int);
            match h.msg_type {
                MsgType::REQUEST => match parse_request_body(h, payload) {
                    Err(e) => Err(e),
                    Ok(q) => Ok(MsgModel::Request(q)),
                },
                MsgType::RESPONSE => match parse_cell_list(payload) {
                    Err(e) => Err(e),
                    Ok(cells) => Ok(MsgModel::Response(ResponseModel { header: h, cell_list: cells })),
                },
                _ => Err(DecodeError::UnsupportedMessageType),
            }
        },
    }
}

fn read_u16_le(lo: u8, hi: u8) -> (r: u16)
    ensures
        r == u16_from_le(lo, hi),
{
    lo as u16 + (hi as u16) * 256
}

/// Decodes a buffer that holds a cell list and nothing else.
pub fn deserialize_cell_list(data: Vec<u8>) -> (r: Result<CellList, DecodeError>)
    ensures
        match r {
            Ok(cells) => parse_cell_list(data@) == Ok::<Seq<Cell>, DecodeError>(cells@),
            Err(e) => parse_cell_list(data@) == Err::<Seq<Cell>, DecodeError>(e),
        },
{
    if data.len() % 4 != 0 {
        return Err(DecodeError::TruncatedCellList);
    }
    let mut cells: CellList = Vec::new();
    let mut pos: usize = 0;
    while pos < data.len()
        invariant
            pos <= data.len(),
            pos % 4 == 0,
            data.len() % 4 == 0,
            cells@ == cells_of(data@.subrange(0, pos as int)),
        decreases data.len() - pos,
    {
        let cell = Cell {
            slot_offset: read_u16_le(data[pos], data[pos + 1]),
            channel_offset: read_u16_le(data[pos + 2], data[pos + 3]),
        };
        cells.push(cell);
        proof {
            let s = data@.subrange(0, pos + 4);
            assert(s.subrange(0, s.len() - 4) =~= data@.subrange(0, pos as int));
        }
        pos = pos + 4;
    }
    assert(data@.subrange(0, data@.len() as int) =~= data@);
    Ok(cells)
}

/// Decodes the four bytes of a header; bytes after them are not read.
pub fn deserialize_header(data: Vec<u8>) -> (r: Result<MsgHdr, DecodeError>)
    ensures
        match r {
            Ok(h) => parse_header(data@) == Ok::<MsgHdr, DecodeError>(h),
            Err(e) => parse_header(data@) == Err::<MsgHdr, DecodeError>(e),
        },
{
    if data.len() < SIXTOP_HDR_SZ_BYTES {
        return Err(DecodeError::TruncatedInput);
    }
    let preamble: u8 = data[0];
    let msg_type = match MsgType::from_u8((PREAMBLE_TYPE_MASK & preamble) >> 2u8) {
        Ok(t) => t,
        Err(_) => return Err(DecodeError::UnknownMessageType),
    };
    Ok(MsgHdr { msg_type: msg_type, code: data[1], sfid: data[2], seqnum: data[3] })
}

/// Decodes the body of a request; the request gets a fresh header.
pub fn deserialize_request_body(data: Vec<u8>) -> (r: Result<Request, DecodeError>)
    ensures
        match r {
            Ok(q) => parse_request_body(fresh_header(MsgType::REQUEST), data@) == Ok::<
                RequestModel,
                DecodeError,
            >(q@),
            Err(e) => parse_request_body(fresh_header(MsgType::REQUEST), data@) == Err::<
                RequestModel,
                DecodeError,
            >(e),
        },
{
    let mut data = data;
    if data.len() < REQUEST_FIELDS_SZ_BYTES {
        return Err(DecodeError::TruncatedInput);
    }
    let mut request = Request::new();
    request.metadata = read_u16_le(data[0], data[1]);
    request.cell_options = data[2];
    request.num_cells = data[3];
    let cells = data.split_off(REQUEST_FIELDS_SZ_BYTES);
    match deserialize_cell_list(cells) {
        Ok(cell_list) => {
            request.cell_list = cell_list;
            Ok(request)
        },
        Err(e) => Err(e),
    }
}

/// Decodes a request or a response.
pub fn deserialize_message(data: Vec<u8>) -> (r: Result<SixtopMsg, DecodeError>)
    ensures
        match r {
            Ok(m) => parse_message(data@) == Ok::<MsgModel, DecodeError>(m@),
            Err(e) => parse_message(data@) == Err::<MsgModel, DecodeError>(e),
        },
{
    let mut data = data;
    if data.len() < SIXTOP_HDR_SZ_BYTES {
        return Err(DecodeError::TruncatedInput);
    }
    let ghost bytes = data@;
    let payload = data.split_off(SIXTOP_HDR_SZ_BYTES);
    assert(parse_header(data@) == parse_header(bytes));
    let msg_hdr = match deserialize_header(data) {
        Ok(h) => h,
        Err(e) => return Err(e),
    };
    match msg_hdr.msg_type {
        MsgType::REQUEST => match deserialize_request_body(payload) {
            Ok(request) => {
                let mut request = request;
                request.header = msg_hdr;
                Ok(SixtopMsg::RequestMsg(request))
            },
            Err(e) => Err(e),
        },
        MsgType::RESPONSE => match deserialize_cell_list(payload) {
            Ok(cell_list) => {
                let mut response = Response::new();
                response.header = msg_hdr;
                response.cell_list = cell_list;
                Ok(SixtopMsg::ResponseMsg(response))
            },
            Err(e) => Err(e),
        },
        _ => Err(DecodeError::UnsupportedMessageType),
    }
}

proof fn lemma_u16_le_round_trip(v: u16)
    ensures
        u16_from_le(u16_le_bytes(v)[0], u16_le_bytes(v)[1]) == v,
{
}

proof fn lemma_type_bits_of_preamble(t: MsgType)
    ensures
        type_bits(preamble(t)) == msg_type_value(t),
{
    let v = msg_type_value(t);
    assert(v < 4 ==> (PREAMBLE_TYPE_MASK & (PREAMBLE_TYPE_MASK & (v << 2u8))) >> 2u8 == v)
        by (bit_vector);
}

proof fn lemma_cell_list_bytes_len(cells: Seq<Cell>)
    ensures
        cell_list_bytes(cells).len() == 4 * cells.len(),
    decreases cells.len(),
{
    if cells.len() > 0 {
        lemma_cell_list_bytes_len(cells.drop_last());
    }
}

/// Reading cells back from the encoding of a cell list gives the list.
proof fn lemma_cells_of_cell_list_bytes(cells: Seq<Cell>)
    ensures
        parse_cell_list(cell_list_bytes(cells)) == Ok::<Seq<Cell>, DecodeError>(cells),
    decreases cells.len(),
{
    lemma_cell_list_bytes_len(cells);
    if cells.len() > 0 {
        let init = cells.drop_last();
        let c = cells.last();
        let b = cell_list_bytes(cells);
        lemma_cells_of_cell_list_bytes(init);
        lemma_cell_list_bytes_len(init);
        assert(b.subrange(0, b.len() - 4) =~= cell_list_bytes(init));
        lemma_u16_le_round_trip(c.slot_offset);
        lemma_u16_le_round_trip(c.channel_offset);
        assert(cell_at(b, b.len() - 4) == c);
        assert(cells_of(b) =~= cells);
    } else {
        assert(cell_list_bytes(cells) =~= Seq::<u8>::empty());
        assert(cells =~= Seq::<Cell>::empty());
    }
}

proof fn lemma_parse_header_bytes(h: MsgHdr, rest: Seq<u8>)
    requires
        msg_type_value(h.msg_type) < 3,
    ensures
        parse_header(header_bytes(h) + rest) == Ok::<MsgHdr, DecodeError>(h),
        (header_bytes(h) + rest).subrange(4, 4 + rest.len() as int) == rest,
{
    lemma_type_bits_of_preamble(h.msg_type);
    assert((header_bytes(h) + rest).subrange(4, 4 + rest.len() as int) =~= rest);
}

/// Round trip: decoding the encoding of a request gives the request back.
pub proof fn lemma_request_round_trip(q: RequestModel)
    requires
        q.header.msg_type == MsgType::REQUEST,
    ensures
        parse_message(request_bytes(q)) == Ok::<MsgModel, DecodeError>(MsgModel::Request(q)),
{
    let fields = u16_le_bytes(q.metadata) + seq![q.cell_options, q.num_cells];
    let cells = cell_list_bytes(q.cell_list);
    let b = request_bytes(q);
    assert(b =~= header_bytes(q.header) + (fields + cells));
    lemma_parse_header_bytes(q.header, fields + cells);
    let payload = b.subrange(4, b.len() as int);
    assert(payload.subrange(4, payload.len() as int) =~= cells);
    lemma_cells_of_cell_list_bytes(q.cell_list);
    lemma_u16_le_round_trip(q.metadata);
}

/// Round trip: decoding the encoding of a response gives the response back.
pub proof fn lemma_response_round_trip(p: ResponseModel)
    requires
        p.header.msg_type == MsgType::RESPONSE,
    ensures
        parse_message(response_bytes(p)) == Ok::<MsgModel, DecodeError>(MsgModel::Response(p)),
{
    let cells = cell_list_bytes(p.cell_list);
    lemma_parse_header_bytes(p.header, cells);
    lemma_cells_of_cell_list_bytes(p.cell_list);
}

/// A buffer shorter than a header, or a request or response whose cell
/// list is not a whole number of cells, is rejected as truncated.
pub proof fn lemma_truncated_input_rejected(b: Seq<u8>)
    requires
        b.len() < 4 || (type_bits(b[0]) == 0 && (b.len() < 8 || (b.len() - 8) % 4 != 0)) || (
        type_bits(b[0]) == 1 && (b.len() - 4) % 4 != 0),
    ensures
        parse_message(b) == Err::<MsgModel, DecodeError>(DecodeError::TruncatedInput)
            || parse_message(b) == Err::<MsgModel, DecodeError>(DecodeError::TruncatedCellList),
{
}

} // verus!

//! Encoding of messages into their wire form. Every integer wider than a
//! byte is written little-endian.
use vstd::prelude::*;

use crate::types::{
    msg_type_value, Cell, CellList, MsgHdr, MsgType, Request, RequestModel, Response,
    ResponseModel, SixtopMsg, PREAMBLE_TYPE_MASK,
};

verus! {

/// Little-endian bytes of a 16-bit value.
pub open spec fn u16_le_bytes(v: u16) -> Seq<u8> {
    seq![(v % 256) as u8, (v / 256) as u8]
}

/// First header byte: the message type in bits 3..2, version and reserved
/// bits 0.
pub open spec fn preamble(t: MsgType) -> u8 {
    PREAMBLE_TYPE_MASK & (msg_type_value(t) << 2u8)
}

pub open spec fn header_bytes(h: MsgHdr) -> Seq<u8> {
    seq![preamble(h.msg_type), h.code, h.sfid, h.seqnum]
}

/// Four bytes per cell: slot offset, then channel offset.
pub open spec fn cell_bytes(c: Cell) -> Seq<u8> {
    u16_le_bytes(c.slot_offset) + u16_le_bytes(c.channel_offset)
}

/// The cells' encodings, in list order.
pub open spec fn cell_list_bytes(cells: Seq<Cell>) -> Seq<u8>
    decreases cells.len(),
{
    if cells.len() == 0 {
        Seq::empty()
    } else {
        cell_list_bytes(cells.drop_last()) + cell_bytes(cells.last())
    }
}

pub open spec fn request_bytes(r: RequestModel) -> Seq<u8> {
    header_bytes(r.header) + u16_le_bytes(r.metadata) + seq![r.cell_options, r.num_cells]
        + cell_list_bytes(r.cell_list)
}

pub open spec fn response_bytes(r: ResponseModel) -> Seq<u8> {
    header_bytes(r.header) + cell_list_bytes(r.cell_list)
}

fn push_u16_le(bytes: &mut Vec<u8>, v: u16)
    ensures
        final(bytes)@ == old(bytes)@ + u16_le_bytes(v),
{
    bytes.push((v % 256) as u8);
    bytes.push((v / 256) as u8);
}

pub fn serialize_cell_list(cell_list: CellList) -> (r: Result<Vec<u8>, ()>)
    ensures
        r matches Ok(b) && b@ == cell_list_bytes(cell_list@),
{
    let mut bytes: Vec<u8> = Vec::new();
    let mut i: usize = 0;
    while i < cell_list.len()
        invariant
            i <= cell_list.len(),
            bytes@ == cell_list_bytes(cell_list@.subrange(0, i as int)),
        decreases cell_list.len() - i,
    {
        let cell = cell_list[i];
        push_u16_le(&mut bytes, cell.slot_offset);
        push_u16_le(&mut bytes, cell.channel_offset);
        assert(cell_list@.subrange(0, i + 1).drop_last() =~= cell_list@.subrange(0, i as int));
        i = i + 1;
    }
    assert(cell_list@.subrange(0, cell_list@.len() as int) =~= cell_list@);
    Ok(bytes)
}

impl MsgHdr {
    //        +-+-+-+-+-+-+-+-+   where version = SIXTOP_VERSION = 0
    // create |Version| T | R |         T = message type
    //        +-+-+-+-+-+-+-+-+         R = 0b00
    pub fn serialize(&self) -> (r: Result<Vec<u8>, ()>)
        ensures
            r matches Ok(b) && b@ == header_bytes(*self),
    {
        let mut bytes: Vec<u8> = Vec::new();
        let preamble: u8 = PREAMBLE_TYPE_MASK & (self.msg_type.to_u8() << 2u8);
        bytes.push(preamble);
        bytes.push(self.code);
        bytes.push(self.sfid);
        bytes.push(self.seqnum);
        assert(bytes@ =~= header_bytes(*self));
        Ok(bytes)
    }
}

pub fn serialize_request(request: Request) -> (r: Result<Vec<u8>, ()>)
    ensures
        r matches Ok(b) && b@ == request_bytes(request@),
{
    let Request { header, metadata, cell_options, num_cells, cell_list } = request;
    let mut bytes = match header.serialize() {
        Ok(b) => b,
        Err(e) => return Err(e),
    };
    push_u16_le(&mut bytes, metadata);
    bytes.push(cell_options);
    bytes.push(num_cells);
    let mut cells = match serialize_cell_list(cell_list) {
        Ok(b) => b,
        Err(e) => return Err(e),
    };
    bytes.append(&mut cells);
    assert(bytes@ =~= request_bytes(request@));
    Ok(bytes)
}

pub fn serialize_response(response: Response) -> (r: Result<Vec<u8>, ()>)
    ensures
        r matches Ok(b) && b@ == response_bytes(response@),
{
    let Response { header, cell_list } = response;
    let mut bytes = match header.serialize() {
        Ok(b) => b,
        Err(e) => return Err(e),
    };
    let mut cells = match serialize_cell_list(cell_list) {
        Ok(b) => b,
        Err(e) => return Err(e),
    };
    bytes.append(&mut cells);
    assert(bytes@ =~= response_bytes(response@));
    Ok(bytes)
}

/// Encodes a message of either kind.
pub fn serialize_message(msg: SixtopMsg) -> (r: Result<Vec<u8>, ()>)
    ensures
        r matches Ok(b) && b@ == match msg {
            SixtopMsg::RequestMsg(q) => request_bytes(q@),
            SixtopMsg::ResponseMsg(p) => response_bytes(p@),
        },
{
    match msg {
        SixtopMsg::RequestMsg(q) => serialize_request(q),
        SixtopMsg::ResponseMsg(p) => serialize_response(p),
    }
}

} // verus!

//! Wire types of the cell-negotiation protocol: cells, message headers,
//! requests and responses, and the codes carried in a header.
use vstd::prelude::*;

verus! {

/// Kind of a message, carried in bits 3..2 of the header's first byte.
#[derive(Debug, Clone, Copy, PartialEq, Eq, Structural)]
pub enum MsgType {
    REQUEST,
    RESPONSE,
    CONFIRMATION,
    Unassigned,
}

/// Operation asked for by a request; its position is its wire value.
#[derive(Debug, Clone, Copy, PartialEq, Eq, Structural)]
pub enum RequestType {
    Reserved,
    ADD,
    DELETE,
    RELOCATE,
    COUNT,
    LIST,
    SIGNAL,
    CLEAR,
    Unassigned,
}

/// Outcome reported by a response; its position is its wire value.
#[allow(non_camel_case_types)]
#[derive(Debug, Clone, Copy, PartialEq, Eq, Structural)]
pub enum ReturnCode {
    RC_SUCCESS,
    RC_EOL,
    RC_ERR,
    RC_RESET,
    RC_ERR_VERSION,
    RC_ERR_SFID,
    RC_ERR_SEQNUM,
    RC_ERR_CELLLIST,
    RC_ERR_BUSY,
    RC_ERR_LOCKED,
    Unassigned,
}

//                            +-+-+-+-+-+-+-+-+
// mask to get/set the T in   |Version| T | R |
//                            +-+-+-+-+-+-+-+-+
pub const PREAMBLE_TYPE_MASK: u8 = 0b00001100;

pub const SIXTOP_VERSION: u8 = 0;

/// Identifier of a neighbor node, the key of the sequence-number table.
pub type NeighborID = u8;

pub type CellList = Vec<Cell>;

#[allow(non_camel_case_types)]
pub type SFID = u8;

/// Identifier of the default scheduling function.
pub const DEFAULT_SFID: SFID = 0;

/// One scheduled transmission opportunity.
#[derive(Debug, Clone, Copy, PartialEq, Eq, Structural)]
pub struct Cell {
    pub slot_offset: u16,
    pub channel_offset: u16,
}

/// The four-byte header shared by every message. `code` holds a
/// `RequestType` in a request and a `ReturnCode` in a response.
#[derive(Debug, Clone, Copy, PartialEq, Eq, Structural)]
pub struct MsgHdr {
    pub msg_type: MsgType,
    pub code: u8,
    pub sfid: u8,
    pub seqnum: u8,
}

/// A request to add, delete or relocate cells. `num_cells` is a hint of the
/// proposer; it does not bound the length of `cell_list`.
#[derive(Debug, PartialEq)]
pub struct Request {
    pub header: MsgHdr,
    pub metadata: u16,
    pub cell_options: u8,
    pub num_cells: u8,
    pub cell_list: CellList,
}

/// A response to a request: a header and the cells that were selected.
#[derive(Debug, PartialEq)]
pub struct Response {
    pub header: MsgHdr,
    pub cell_list: CellList,
}

/// A decoded message of either kind.
#[derive(Debug, PartialEq)]
pub enum SixtopMsg {
    RequestMsg(Request),
    ResponseMsg(Response),
}

/// Mathematical value of a request: its cell list as a sequence.
pub struct RequestModel {
    pub header: MsgHdr,
    pub metadata: u16,
    pub cell_options: u8,
    pub num_cells: u8,
    pub cell_list: Seq<Cell>,
}

/// Mathematical value of a response.
pub struct ResponseModel {
    pub header: MsgHdr,
    pub cell_list: Seq<Cell>,
}

/// Mathematical value of a message of either kind.
pub enum MsgModel {
    Request(RequestModel),
    Response(ResponseModel),
}

impl View for Request {
    type V = RequestModel;

    open spec fn view(&self) -> RequestModel {
        RequestModel {
            header: self.header,
            metadata: self.metadata,
            cell_options: self.cell_options,
            num_cells: self.num_cells,
            cell_list: self.cell_list@,
        }
    }
}

impl View for Response {
    type V = ResponseModel;

    open spec fn view(&self) -> ResponseModel {
        ResponseModel { header: self.header, cell_list: self.cell_list@ }
    }
}

impl View for SixtopMsg {
    type V = MsgModel;

    open spec fn view(&self) -> MsgModel {
        match self {
            SixtopMsg::RequestMsg(r) => MsgModel::Request(r@),
            SixtopMsg::ResponseMsg(r) => MsgModel::Response(r@),
        }
    }
}

/// The scheduling function decides which of the proposed cells a node
/// accepts. `selection` is the choice it makes; every implementation
/// proves that `pick_cells` returns it.
pub trait SchedulingFunction {
    spec fn selection(proposed: Seq<Cell>, num_cells: u8) -> Seq<Cell>;

    fn get_sfid() -> SFID;

    fn pick_cells(cell_list: Vec<Cell>, num_cells: u8) -> (r: Vec<Cell>)
        ensures
            r@ == Self::selection(cell_list@, num_cells),
    ;
}

/// Messages that can be created with protocol defaults.
pub trait Msg: Sized {
    fn new() -> Self;
}

/// Wire value of a message type.
pub open spec fn msg_type_value(t: MsgType) -> u8 {
    match t {
        MsgType::REQUEST => 0,
        MsgType::RESPONSE => 1,
        MsgType::CONFIRMATION => 2,
        MsgType::Unassigned => 3,
    }
}

/// Wire value of a return code.
pub open spec fn return_code_value(c: ReturnCode) -> u8 {
    match c {
        ReturnCode::RC_SUCCESS => 0,
        ReturnCode::RC_EOL => 1,
        ReturnCode::RC_ERR => 2,
        ReturnCode::RC_RESET => 3,
        ReturnCode::RC_ERR_VERSION => 4,
        ReturnCode::RC_ERR_SFID => 5,
        ReturnCode::RC_ERR_SEQNUM => 6,
        ReturnCode::RC_ERR_CELLLIST => 7,
        ReturnCode::RC_ERR_BUSY => 8,
        ReturnCode::RC_ERR_LOCKED => 9,
        ReturnCode::Unassigned => 10,
    }
}

/// A header with protocol defaults: default SFID, code and seqnum 0.
pub open spec fn fresh_header(t: MsgType) -> MsgHdr {
    MsgHdr { msg_type: t, code: 0, sfid: DEFAULT_SFID, seqnum: 0 }
}

impl MsgType {
    pub fn to_u8(&self) -> (r: u8)
        ensures
            r == msg_type_value(*self),
    {
        match self {
            MsgType::REQUEST => 0,
            MsgType::RESPONSE => 1,
            MsgType::CONFIRMATION => 2,
            MsgType::Unassigned => 3,
        }
    }

    /// Reads a message type from its wire value; only 0, 1 and 2 are
    /// defined.
    pub fn from_u8(value: u8) -> (r: Result<MsgType, ()>)
        ensures
            match r {
                Ok(t) => value < 3 && msg_type_value(t) == value,
                Err(_) => value >= 3,
            },
    {
        match value {
            0 => Ok(MsgType::REQUEST),
            1 => Ok(MsgType::RESPONSE),
            2 => Ok(MsgType::CONFIRMATION),
            _ => Err(()),
        }
    }
}

impl ReturnCode {
    pub fn to_u8(&self) -> (r: u8)
        ensures
            r == return_code_value(*self),
    {
        match self {
            ReturnCode::RC_SUCCESS => 0,
            ReturnCode::RC_EOL => 1,
            ReturnCode::RC_ERR => 2,
            ReturnCode::RC_RESET => 3,
            ReturnCode::RC_ERR_VERSION => 4,
            ReturnCode::RC_ERR_SFID => 5,
            ReturnCode::RC_ERR_SEQNUM => 6,
            ReturnCode::RC_ERR_CELLLIST => 7,
            ReturnCode::RC_ERR_BUSY => 8,
            ReturnCode::RC_ERR_LOCKED => 9,
            ReturnCode::Unassigned => 10,
        }
    }
}

impl MsgHdr {
    pub fn new(msg_type: MsgType) -> (r: MsgHdr)
        ensures
            r == fresh_header(msg_type),
    {
        MsgHdr { msg_type: msg_type, code: 0, sfid: DEFAULT_SFID, seqnum: 0 }
    }
}

impl Msg for Request {
    fn new() -> (r: Request)
        ensures
            r.header == fresh_header(MsgType::REQUEST),
            r.metadata == 0,
            r.cell_options == 0,
            r.num_cells == 0,
            r.cell_list@ == Seq::<Cell>::empty(),
    {
        Request {
            header: MsgHdr::new(MsgType::REQUEST),
            metadata: 0,
            cell_options: 0,
            num_cells: 0,
            cell_list: Vec::new(),
        }
    }
}

impl Msg for Response {
    fn new() -> (r: Response)
        ensures
            r.header == fresh_header(MsgType::RESPONSE),
            r.cell_list@ == Seq::<Cell>::empty(),
    {
        Response { header: MsgHdr::new(MsgType::RESPONSE), cell_list: Vec::new() }
    }
}

} // verus!

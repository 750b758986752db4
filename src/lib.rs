//! Transaction logic of a link-layer cell-negotiation protocol: a wire
//! codec for requests and responses, a per-neighbor sequence-number table,
//! and the engine that answers incoming messages.
pub mod msg_builder;
pub mod msg_reader;
pub mod seqnums;
pub mod types;

use vstd::prelude::*;

use crate::seqnums::{after_increment, after_verify, verify_outcome, SeqNum, SeqNums};
use crate::types::{
    return_code_value, Cell, Msg, MsgHdr, MsgType, NeighborID, Response, ReturnCode,
    SchedulingFunction, SixtopMsg, DEFAULT_SFID, SFID,
};

verus! {

/// Why the engine could not handle a message.
#[derive(Debug, Clone, Copy, PartialEq, Eq, Structural)]
pub enum EngineError {
    /// A response carried a SeqNum that does not fit the stored one.
    SeqNumMismatch,
}

/// Header of a response with the given return code and SeqNum.
pub open spec fn reply_header(code: ReturnCode, seqnum: SeqNum) -> MsgHdr {
    MsgHdr {
        msg_type: MsgType::RESPONSE,
        code: return_code_value(code),
        sfid: DEFAULT_SFID,
        seqnum: seqnum,
    }
}

/// Scheduling function that accepts the proposed cells in order, at most
/// as many as the request asks for.
pub struct TakeFirst;

impl SchedulingFunction for TakeFirst {
    open spec fn selection(proposed: Seq<Cell>, num_cells: u8) -> Seq<Cell> {
        if num_cells < proposed.len() {
            proposed.take(num_cells as int)
        } else {
            proposed
        }
    }

    fn get_sfid() -> SFID {
        DEFAULT_SFID
    }

    fn pick_cells(cell_list: Vec<Cell>, num_cells: u8) -> (r: Vec<Cell>) {
        let mut picked: Vec<Cell> = Vec::new();
        let mut i: usize = 0;
        while i < cell_list.len() && i < num_cells as usize
            invariant
                i <= cell_list.len(),
                i <= num_cells,
                picked@ == cell_list@.take(i as int),
            decreases cell_list.len() - i,
        {
            picked.push(cell_list[i]);
            assert(cell_list@.take(i + 1) =~= cell_list@.take(i as int).push(cell_list@[i as int]));
            i = i + 1;
        }
        assert(cell_list@.take(cell_list@.len() as int) =~= cell_list@);
        picked
    }
}

/// The protocol engine of one node. Its only state is the table of
/// sequence numbers of its neighbors.
pub struct Sixtop {
    seqnums: SeqNums,
}

impl View for Sixtop {
    type V = Map<NeighborID, SeqNum>;

    closed spec fn view(&self) -> Map<NeighborID, SeqNum> {
        self.seqnums@
    }
}

impl Sixtop {
    pub fn new() -> (r: Sixtop)
        ensures
            r@ == Map::<NeighborID, SeqNum>::empty(),
    {
        Sixtop { seqnums: SeqNums::new() }
    }

    /// The SeqNum stored for `neighbor`, if it is known.
    pub fn stored_seqnum(&mut self, neighbor: NeighborID) -> (r: Option<SeqNum>)
        ensures
            final(self)@ == old(self)@,
            r == if old(self)@.contains_key(neighbor) {
                Some(old(self)@[neighbor])
            } else {
                None::<SeqNum>
            },
    {
        match self.seqnums.get_seqnum(neighbor) {
            Some(s) => Some(*s),
            None => None,
        }
    }

    /// Handles a message received from `sender`.
    ///
    /// A request is answered with a response. When its SeqNum is
    /// consistent, the response carries `RC_SUCCESS`, the agreed SeqNum and
    /// the cells that the scheduling function `S` selects, and the sender's
    /// counter advances. Otherwise it carries `RC_ERR_SEQNUM`, SeqNum 0 and
    /// no cells, and the counter stays.
    ///
    /// A response with a consistent SeqNum ends the transaction: the counter
    /// advances and nothing is sent back. One with an inconsistent SeqNum is
    /// an error.
    pub fn handle_msg<S: SchedulingFunction>(&mut self, sender: NeighborID, msg: SixtopMsg) -> (r:
        Result<Option<SixtopMsg>, EngineError>)
        ensures
            match msg {
                SixtopMsg::RequestMsg(req) => {
                    let received = req.header.seqnum;
                    &&& r matches Ok(Some(SixtopMsg::ResponseMsg(resp)))
                    &&& match verify_outcome(old(self)@, sender, received) {
                        Ok(agreed) => {
                            &&& resp.header == reply_header(ReturnCode::RC_SUCCESS, agreed)
                            &&& resp.cell_list@ == S::selection(req.cell_list@, req.num_cells)
                            &&& final(self)@ == after_increment(
                                after_verify(old(self)@, sender, received),
                                sender,
                            )
                        },
                        Err(_) => {
                            &&& resp.header == reply_header(ReturnCode::RC_ERR_SEQNUM, 0)
                            &&& resp.cell_list@.len() == 0
                            &&& final(self)@ == old(self)@
                        },
                    }
                },
                SixtopMsg::ResponseMsg(resp) => {
                    let received = resp.header.seqnum;
                    match verify_outcome(old(self)@, sender, received) {
                        Ok(_) => {
                            &&& r == Ok::<Option<SixtopMsg>, EngineError>(None)
                            &&& final(self)@ == after_increment(
                                after_verify(old(self)@, sender, received),
                                sender,
                            )
                        },
                        Err(_) => {
                            &&& r == Err::<Option<SixtopMsg>, EngineError>(
                                EngineError::SeqNumMismatch,
                            )
                            &&& final(self)@ == old(self)@
                        },
                    }
                },
            },
    {
        match msg {
            SixtopMsg::RequestMsg(request) => {
                let mut response = Response::new();
                match self.seqnums.update_seqnum(sender, request.header.seqnum) {
                    Ok(seqnum) => {
                        response.header.code = ReturnCode::RC_SUCCESS.to_u8();
                        response.header.seqnum = seqnum;
                        response.cell_list = S::pick_cells(request.cell_list, request.num_cells);
                        self.seqnums.increment_seqnum(sender);
                    },
                    Err(_) => {
                        response.header.code = ReturnCode::RC_ERR_SEQNUM.to_u8();
                        response.header.seqnum = 0;
                    },
                }
                Ok(Some(SixtopMsg::ResponseMsg(response)))
            },
            SixtopMsg::ResponseMsg(response) => {
                match self.seqnums.update_seqnum(sender, response.header.seqnum) {
                    Ok(_) => {
                        self.seqnums.increment_seqnum(sender);
                        Ok(None)
                    },
                    Err(_) => Err(EngineError::SeqNumMismatch),
                }
            },
        }
    }
}

} // verus!

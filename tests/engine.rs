use sixtop::seqnums::SeqNum;
use sixtop::types::{
    Cell, Msg, MsgHdr, MsgType, NeighborID, Request, Response, ReturnCode, SchedulingFunction,
    SixtopMsg,
};
use sixtop::{EngineError, Sixtop, TakeFirst};

fn request_from(seqnum: SeqNum, num_cells: u8, cells: &[Cell]) -> SixtopMsg {
    let mut request = Request::new();
    request.header.code = 1;
    request.header.seqnum = seqnum;
    request.num_cells = num_cells;
    request.cell_list = cells.to_vec();
    SixtopMsg::RequestMsg(request)
}

fn response_from(seqnum: SeqNum) -> SixtopMsg {
    let mut response = Response::new();
    response.header.seqnum = seqnum;
    SixtopMsg::ResponseMsg(response)
}

fn reply_of(result: Result<Option<SixtopMsg>, EngineError>) -> Response {
    match result {
        Ok(Some(SixtopMsg::ResponseMsg(response))) => response,
        other => panic!("no response: {:?}", other),
    }
}

#[test]
fn test_lib() {
    assert_eq!(0, 0);
}

#[test]
fn end_to_end_transaction() {
    let mut engine = Sixtop::new();
    let neighbor: NeighborID = 22;
    let cells = [Cell { slot_offset: 1, channel_offset: 2 }, Cell { slot_offset: 3, channel_offset: 9 }];
    let response = reply_of(engine.handle_msg::<TakeFirst>(neighbor, request_from(0, 2, &cells)));
    assert_eq!(
        response.header,
        MsgHdr {
            msg_type: MsgType::RESPONSE,
            code: ReturnCode::RC_SUCCESS as u8,
            sfid: 0,
            seqnum: 0
        }
    );
    assert_eq!(response.cell_list, cells.to_vec());
    assert_eq!(engine.stored_seqnum(neighbor), Some(1));
}

#[test]
fn reset_neighbor_gets_seqnum_error() {
    let mut engine = Sixtop::new();
    let cells = [Cell { slot_offset: 1, channel_offset: 2 }];
    reply_of(engine.handle_msg::<TakeFirst>(3, request_from(0, 1, &cells)));
    assert_eq!(engine.stored_seqnum(3), Some(1));
    let response = reply_of(engine.handle_msg::<TakeFirst>(3, request_from(0, 1, &cells)));
    assert_eq!(response.header.code, ReturnCode::RC_ERR_SEQNUM as u8);
    assert_eq!(response.header.seqnum, 0);
    assert_eq!(response.header.msg_type, MsgType::RESPONSE);
    assert!(response.cell_list.is_empty());
    assert_eq!(engine.stored_seqnum(3), Some(1));
}

#[test]
fn later_request_echoes_stored_seqnum() {
    let mut engine = Sixtop::new();
    let cells = [Cell { slot_offset: 7, channel_offset: 1 }];
    reply_of(engine.handle_msg::<TakeFirst>(4, request_from(0, 1, &cells)));
    let response = reply_of(engine.handle_msg::<TakeFirst>(4, request_from(2, 1, &cells)));
    assert_eq!(response.header.code, ReturnCode::RC_SUCCESS as u8);
    assert_eq!(response.header.seqnum, 1);
    assert_eq!(engine.stored_seqnum(4), Some(2));
}

#[test]
fn scheduling_function_limits_cells() {
    let mut engine = Sixtop::new();
    let cells = [
        Cell { slot_offset: 1, channel_offset: 1 },
        Cell { slot_offset: 2, channel_offset: 2 },
        Cell { slot_offset: 3, channel_offset: 3 },
    ];
    let response = reply_of(engine.handle_msg::<TakeFirst>(5, request_from(9, 2, &cells)));
    assert_eq!(response.header.seqnum, 9);
    assert_eq!(response.cell_list, cells[..2].to_vec());
    assert_eq!(TakeFirst::pick_cells(cells.to_vec(), 10), cells.to_vec());
    assert_eq!(TakeFirst::pick_cells(cells.to_vec(), 0), Vec::<Cell>::new());
    assert_eq!(TakeFirst::get_sfid(), 0);
}

#[test]
fn consistent_response_completes_transaction() {
    let mut engine = Sixtop::new();
    assert_eq!(engine.handle_msg::<TakeFirst>(6, response_from(0)), Ok(None));
    assert_eq!(engine.stored_seqnum(6), Some(1));
    assert_eq!(engine.handle_msg::<TakeFirst>(6, response_from(5)), Ok(None));
    assert_eq!(engine.stored_seqnum(6), Some(2));
}

#[test]
fn inconsistent_response_is_an_error() {
    let mut engine = Sixtop::new();
    assert_eq!(engine.handle_msg::<TakeFirst>(7, response_from(3)), Ok(None));
    assert_eq!(engine.stored_seqnum(7), Some(4));
    assert_eq!(
        engine.handle_msg::<TakeFirst>(7, response_from(4)),
        Err(EngineError::SeqNumMismatch)
    );
    assert_eq!(
        engine.handle_msg::<TakeFirst>(7, response_from(0)),
        Err(EngineError::SeqNumMismatch)
    );
    assert_eq!(engine.stored_seqnum(7), Some(4));
}

#[test]
fn neighbors_are_independent() {
    let mut engine = Sixtop::new();
    assert_eq!(engine.stored_seqnum(1), None);
    reply_of(engine.handle_msg::<TakeFirst>(1, request_from(0, 0, &[])));
    assert_eq!(engine.stored_seqnum(1), Some(1));
    assert_eq!(engine.stored_seqnum(2), None);
}

//! Message ids: those that the ElectricUI protocol reserves, taken from
//! `electricui_embedded::message::MessageId`, and those of this board.
use electricui_embedded::message::MessageId;
use vstd::prelude::*;

verus! {

/// The id "h" of the heartbeat (`MessageId::INTERNAL_HEARTBEAT`).
pub open spec fn heartbeat_id() -> Seq<u8> {
    seq![0x68u8]
}

/// The bytes of `MessageId::INTERNAL_HEARTBEAT`, which are "h".
#[verifier::external_body]
pub(crate) fn heartbeat() -> (r: &'static [u8])
    ensures
        r@ == heartbeat_id(),
{
    MessageId::INTERNAL_HEARTBEAT.as_bytes()
}

/// The id "i" of the board id query (`MessageId::INTERNAL_BOARD_ID`).
pub open spec fn board_id_id() -> Seq<u8> {
    seq![0x69u8]
}

/// The bytes of `MessageId::INTERNAL_BOARD_ID`, which are "i".
#[verifier::external_body]
pub(crate) fn board_id() -> (r: &'static [u8])
    ensures
        r@ == board_id_id(),
{
    MessageId::INTERNAL_BOARD_ID.as_bytes()
}

/// The id "name" of the board name query (`MessageId::BOARD_NAME`).
pub open spec fn board_name_id() -> Seq<u8> {
    seq![0x6eu8, 0x61, 0x6d, 0x65]
}

/// The bytes of `MessageId::BOARD_NAME`, which are "name".
#[verifier::external_body]
pub(crate) fn board_name() -> (r: &'static [u8])
    ensures
        r@ == board_name_id(),
{
    MessageId::BOARD_NAME.as_bytes()
}

/// The id "t" of the request to announce the writable ids (`MessageId::INTERNAL_AM`).
pub open spec fn announce_ids_id() -> Seq<u8> {
    seq![0x74u8]
}

/// The bytes of `MessageId::INTERNAL_AM`, which are "t".
#[verifier::external_body]
pub(crate) fn announce_ids() -> (r: &'static [u8])
    ensures
        r@ == announce_ids_id(),
{
    MessageId::INTERNAL_AM.as_bytes()
}

/// The id "u" of a list of writable ids (`MessageId::INTERNAL_AM_LIST`).
pub open spec fn id_list_id() -> Seq<u8> {
    seq![0x75u8]
}

/// The bytes of `MessageId::INTERNAL_AM_LIST`, which are "u".
#[verifier::external_body]
pub(crate) fn id_list() -> (r: &'static [u8])
    ensures
        r@ == id_list_id(),
{
    MessageId::INTERNAL_AM_LIST.as_bytes()
}

/// The id "v" of the end of the writable ids (`MessageId::INTERNAL_AM_END`).
pub open spec fn id_list_end_id() -> Seq<u8> {
    seq![0x76u8]
}

/// The bytes of `MessageId::INTERNAL_AM_END`, which are "v".
#[verifier::external_body]
pub(crate) fn id_list_end() -> (r: &'static [u8])
    ensures
        r@ == id_list_end_id(),
{
    MessageId::INTERNAL_AM_END.as_bytes()
}

/// The id "w" of the request to send the writable variables (`MessageId::INTERNAL_AV`).
pub open spec fn send_variables_id() -> Seq<u8> {
    seq![0x77u8]
}

/// The bytes of `MessageId::INTERNAL_AV`, which are "w".
#[verifier::external_body]
pub(crate) fn send_variables() -> (r: &'static [u8])
    ensures
        r@ == send_variables_id(),
{
    MessageId::INTERNAL_AV.as_bytes()
}

/// The id "led_blink" of the blink switch.
pub open spec fn led_blink_id() -> Seq<u8> {
    seq![0x6cu8, 0x65, 0x64, 0x5f, 0x62, 0x6c, 0x69, 0x6e, 0x6b]
}

/// The id "led_blink" of the blink switch.
pub fn led_blink() -> (r: Vec<u8>)
    ensures
        r@ == led_blink_id(),
{
    let r = vec![0x6cu8, 0x65, 0x64, 0x5f, 0x62, 0x6c, 0x69, 0x6e, 0x6b];
    assert(r@ =~= led_blink_id());
    r
}

/// The id "led_state" of the LED state.
pub open spec fn led_state_id() -> Seq<u8> {
    seq![0x6cu8, 0x65, 0x64, 0x5f, 0x73, 0x74, 0x61, 0x74, 0x65]
}

/// The id "led_state" of the LED state.
pub fn led_state() -> (r: Vec<u8>)
    ensures
        r@ == led_state_id(),
{
    let r = vec![0x6cu8, 0x65, 0x64, 0x5f, 0x73, 0x74, 0x61, 0x74, 0x65];
    assert(r@ =~= led_state_id());
    r
}

/// The id "lit_time" of the time the LED stays in one state, in milliseconds.
pub open spec fn lit_time_id() -> Seq<u8> {
    seq![0x6cu8, 0x69, 0x74, 0x5f, 0x74, 0x69, 0x6d, 0x65]
}

/// The id "lit_time" of the time the LED stays in one state, in milliseconds.
pub fn lit_time() -> (r: Vec<u8>)
    ensures
        r@ == lit_time_id(),
{
    let r = vec![0x6cu8, 0x69, 0x74, 0x5f, 0x74, 0x69, 0x6d, 0x65];
    assert(r@ =~= lit_time_id());
    r
}

/// The id "my-board" of the board's name.
pub open spec fn my_board_id() -> Seq<u8> {
    seq![0x6du8, 0x79, 0x2d, 0x62, 0x6f, 0x61, 0x72, 0x64]
}

/// The id "my-board" of the board's name.
pub fn my_board() -> (r: Vec<u8>)
    ensures
        r@ == my_board_id(),
{
    let r = vec![0x6du8, 0x79, 0x2d, 0x62, 0x6f, 0x61, 0x72, 0x64];
    assert(r@ =~= my_board_id());
    r
}

/// The number this board answers to a board id query.
pub const BOARD_ID: u16 = 0xBEEF;

} // verus!

//! The AC wire protocol as far as the client needs it: message kinds by
//! opcode, decoding of the server messages the client reacts to, encoding of
//! the client's messages, and fragment reassembly. Each decoder and encoder
//! is a call into `asheron_rs`.

use vstd::prelude::*;
use std::io::Cursor;
use asheron_rs::readers::ACDataType;
use asheron_rs::writers::ACWritable;
use asheron_rs::enums::S2CMessage;
use asheron_rs::enums::GameEvent as AcGameEvent;
use asheron_rs::message::{C2SMessage, GameActionMessage};
use crate::events::CharacterIdentity;
use crate::wire::{u32_le, u16_from_le, u32_from_le, read_u16_at, read_u32_at, ac_string_bytes};

verus! {

/// The server messages the client distinguishes.
#[derive(Clone, Copy, Debug, PartialEq, Eq, Structural)]
pub enum S2CKind {
    OrderedGameEvent,
    LoginCreatePlayer,
    LoginLoginCharacterSet,
    DDDInterrogationMessage,
    CharacterCharGenVerificationResponse,
    LoginEnterGameServerReady,
    ItemCreateObject,
    CommunicationTextboxString,
    CommunicationHearSpeech,
    CommunicationHearRangedSpeech,
    CharacterCharacterError,
    /// Any other opcode.
    Other,
}

/// The game events (inside an ordered game event) the client distinguishes.
#[derive(Clone, Copy, Debug, PartialEq, Eq, Structural)]
pub enum GameEventKind {
    CommunicationHearDirectSpeech,
    CommunicationTransientString,
    /// Any other opcode.
    Other,
}

/// What `asheron_rs::enums::S2CMessage::try_from(opcode)` selects, by kind:
/// the enum's discriminants of the messages the client handles.
pub open spec fn s2c_message_kind(opcode: u32) -> S2CKind {
    if opcode == 0xF7B0 { S2CKind::OrderedGameEvent }
    else if opcode == 0xF746 { S2CKind::LoginCreatePlayer }
    else if opcode == 0xF658 { S2CKind::LoginLoginCharacterSet }
    else if opcode == 0xF7E5 { S2CKind::DDDInterrogationMessage }
    else if opcode == 0xF643 { S2CKind::CharacterCharGenVerificationResponse }
    else if opcode == 0xF7DF { S2CKind::LoginEnterGameServerReady }
    else if opcode == 0xF745 { S2CKind::ItemCreateObject }
    else if opcode == 0xF7E0 { S2CKind::CommunicationTextboxString }
    else if opcode == 0x2BB { S2CKind::CommunicationHearSpeech }
    else if opcode == 0x2BC { S2CKind::CommunicationHearRangedSpeech }
    else if opcode == 0xF659 { S2CKind::CharacterCharacterError }
    else { S2CKind::Other }
}

/// What `asheron_rs::enums::GameEvent::try_from(opcode)` selects, by kind:
/// the enum's discriminants of the game events the client handles.
pub open spec fn game_event_kind(opcode: u32) -> GameEventKind {
    if opcode == 0x2BD { GameEventKind::CommunicationHearDirectSpeech }
    else if opcode == 0x2EB { GameEventKind::CommunicationTransientString }
    else { GameEventKind::Other }
}

/// Calls `asheron_rs::enums::S2CMessage::try_from` and tells the variants apart.
#[verifier::external_body]
pub(crate) fn s2c_kind(opcode: u32) -> (r: S2CKind)
    ensures
        r == s2c_message_kind(opcode),
{
    match S2CMessage::try_from(opcode) {
        Ok(S2CMessage::OrderedGameEvent) => S2CKind::OrderedGameEvent,
        Ok(S2CMessage::LoginCreatePlayer) => S2CKind::LoginCreatePlayer,
        Ok(S2CMessage::LoginLoginCharacterSet) => S2CKind::LoginLoginCharacterSet,
        Ok(S2CMessage::DDDInterrogationMessage) => S2CKind::DDDInterrogationMessage,
        Ok(S2CMessage::CharacterCharGenVerificationResponse) => S2CKind::CharacterCharGenVerificationResponse,
        Ok(S2CMessage::LoginEnterGameServerReady) => S2CKind::LoginEnterGameServerReady,
        Ok(S2CMessage::ItemCreateObject) => S2CKind::ItemCreateObject,
        Ok(S2CMessage::CommunicationTextboxString) => S2CKind::CommunicationTextboxString,
        Ok(S2CMessage::CommunicationHearSpeech) => S2CKind::CommunicationHearSpeech,
        Ok(S2CMessage::CommunicationHearRangedSpeech) => S2CKind::CommunicationHearRangedSpeech,
        Ok(S2CMessage::CharacterCharacterError) => S2CKind::CharacterCharacterError,
        _ => S2CKind::Other,
    }
}

/// Calls `asheron_rs::enums::GameEvent::try_from` and tells the variants apart.
#[verifier::external_body]
pub(crate) fn game_event_kind_of(opcode: u32) -> (r: GameEventKind)
    ensures
        r == game_event_kind(opcode),
{
    match AcGameEvent::try_from(opcode) {
        Ok(AcGameEvent::CommunicationHearDirectSpeech) => GameEventKind::CommunicationHearDirectSpeech,
        Ok(AcGameEvent::CommunicationTransientString) => GameEventKind::CommunicationTransientString,
        _ => GameEventKind::Other,
    }
}

/// The server's character list.
#[derive(Clone, Debug)]
pub struct CharacterSetMsg {
    pub account: String,
    pub characters: Vec<CharacterIdentity>,
    pub num_slots: u32,
}

/// Speech heard from another character.
#[derive(Clone, Debug)]
pub struct SpeechMsg {
    pub message: String,
    pub sender_name: String,
    pub sender_id: u32,
    pub message_type: u32,
}

/// A tell addressed to this character.
#[derive(Clone, Debug)]
pub struct DirectSpeechMsg {
    pub message: String,
    pub sender_name: String,
    pub sender_id: u32,
    pub target_id: u32,
    pub message_type: u32,
}

/// A character error, by numeric code and by the name the protocol gives it.
#[derive(Clone, Debug)]
pub struct CharacterErrorMsg {
    pub code: u32,
    pub name: String,
}

/// The payload of the server's ConnectRequest (its time field is left out).
#[derive(Clone, Copy, Debug)]
pub struct ConnectRequest {
    pub cookie: u64,
    pub net_id: i32,
    pub outgoing_seed: u32,
    pub incoming_seed: u32,
}

/// One fragment of a server message.
#[derive(Clone, Debug)]
pub struct BlobFragment {
    pub sequence: u32,
    pub id: u32,
    pub count: u16,
    pub size: u16,
    pub index: u16,
    pub group: u16,
    pub data: Vec<u8>,
}

/// An object the server created, with the description fields the client reports.
#[derive(Clone, Debug)]
pub struct ItemCreatedMsg {
    pub object_id: u32,
    pub name: String,
    /// The `Debug` rendering of the object's item type.
    pub item_type: String,
    pub container_id: Option<u32>,
    pub burden: Option<u16>,
    pub value: Option<u32>,
    pub items_capacity: Option<u8>,
    pub container_capacity: Option<u8>,
}

/// What `ItemCreateObject::read` yields, mapped to the fields the client reports.
pub uninterp spec fn decoded_item_create_object(payload: Seq<u8>) -> Option<ItemCreatedMsg>;
/// What `LoginLoginCharacterSet::read` yields for a payload, mapped to plain fields.
pub uninterp spec fn decoded_character_set(payload: Seq<u8>) -> Option<CharacterSetMsg>;
/// What `DDDInterrogationMessage::read` yields: whether it parses.
pub uninterp spec fn decodes_ddd_interrogation(payload: Seq<u8>) -> bool;
/// What `LoginCreatePlayer::read` yields: the character id, a `u32` at the
/// start of the payload.
pub open spec fn decoded_create_player(payload: Seq<u8>) -> Option<u32> {
    if payload.len() >= 4 { Some(u32_from_le(payload, 0)) } else { None }
}
/// What `CharacterCharacterError::read` yields: the reason's number and display name.
pub uninterp spec fn decoded_character_error(payload: Seq<u8>) -> Option<CharacterErrorMsg>;
/// What `CommunicationHearSpeech::read` yields.
pub uninterp spec fn decoded_hear_speech(payload: Seq<u8>) -> Option<SpeechMsg>;
/// What `CommunicationHearRangedSpeech::read` yields.
pub uninterp spec fn decoded_hear_ranged_speech(payload: Seq<u8>) -> Option<SpeechMsg>;
/// What `CharacterCharGenVerificationResponse::read` yields: whether it parses.
pub uninterp spec fn decodes_char_gen_verification(payload: Seq<u8>) -> bool;
/// What the game event `CommunicationHearDirectSpeech::read` yields.
pub uninterp spec fn decoded_hear_direct_speech(payload: Seq<u8>) -> Option<DirectSpeechMsg>;
/// What the game event `CommunicationTransientString::read` yields: its message.
pub uninterp spec fn decoded_transient_string(payload: Seq<u8>) -> Option<Seq<char>>;
/// What `String::read` (an AC string) yields at the start of `bytes`, with
/// the number of bytes it consumed.
pub uninterp spec fn decoded_ac_string(bytes: Seq<u8>) -> Option<(Seq<char>, nat)>;
/// What `ConnectRequestHeader::read` yields, without the time field: after
/// the eight-byte server time, the cookie (a `u64`), the net id (an `i32`),
/// the outgoing and incoming seeds and an unused `u32`, all little-endian;
/// nothing when the payload is shorter than those 32 bytes.
pub open spec fn decoded_connect_request(payload: Seq<u8>) -> Option<ConnectRequest> {
    if payload.len() >= 32 {
        Some(ConnectRequest {
            cookie: (u32_from_le(payload, 8) as u64) | ((u32_from_le(payload, 12) as u64) << 32u64),
            net_id: u32_from_le(payload, 16) as i32,
            outgoing_seed: u32_from_le(payload, 20),
            incoming_seed: u32_from_le(payload, 24),
        })
    } else {
        None
    }
}
/// The fragment of `S2CPacket::read` on a whole packet, when it parses and carries one.
pub uninterp spec fn decoded_blob_fragment(packet: Seq<u8>) -> Option<BlobFragment>;


/// Whether an AC string read at offset `i` of `p` would announce a negative
/// length: its `i16` length is -1 (the bytes 0xFF 0xFF), which calls for an
/// `i32` length next, and that length's top byte has its sign bit set.
pub open spec fn negative_long_length_at(p: Seq<u8>, i: int) -> bool {
    &&& 0 <= i
    &&& i + 6 <= p.len()
    &&& p[i] == 0xFF
    &&& p[i + 1] == 0xFF
    &&& p[i + 5] >= 0x80
}

/// Whether no AC string read at any offset of `p` would announce a negative
/// length. `readers::read_string` turns such a length into a `usize` and
/// allocates that many bytes, which panics; a message reader may start a
/// string at any offset its earlier fields lead to, so every offset is tested.
pub open spec fn strings_readable(p: Seq<u8>) -> bool {
    forall|i: int| !#[trigger] negative_long_length_at(p, i)
}

/// Whether the AC string at the start of `p` is free of a negative length.
pub open spec fn leading_string_readable(p: Seq<u8>) -> bool {
    !negative_long_length_at(p, 0)
}

/// Decide `strings_readable`.
pub fn check_strings_readable(p: &[u8]) -> (r: bool)
    ensures
        r == strings_readable(p@),
{
    let mut i: usize = 0;
    while p.len() >= 6 && i <= p.len() - 6
        invariant
            i <= p@.len(),
            forall|j: int| 0 <= j < i ==> !#[trigger] negative_long_length_at(p@, j),
        decreases p.len() - i,
    {
        if p[i] == 0xFF && p[i + 1] == 0xFF && p[i + 5] >= 0x80 {
            assert(negative_long_length_at(p@, i as int));
            return false;
        }
        i = i + 1;
    }
    assert forall|j: int| !#[trigger] negative_long_length_at(p@, j) by {
        if 0 <= j && j >= i {
            assert(j + 6 > p@.len());
        }
    }
    true
}

/// Decide `leading_string_readable`.
pub fn check_leading_string_readable(p: &[u8]) -> (r: bool)
    ensures
        r == leading_string_readable(p@),
{
    !(p.len() >= 6 && p[0] == 0xFF && p[1] == 0xFF && p[5] >= 0x80)
}

/// Whether neither of the two AC strings at the start of `p` (the second
/// where the first ends) announces a negative length. The speech messages
/// start with two strings and hold no other.
pub open spec fn two_strings_readable(p: Seq<u8>) -> bool {
    &&& leading_string_readable(p)
    &&& match decoded_ac_string(p) {
            Some((_, used)) => leading_string_readable(p.subrange(used as int, p.len() as int)),
            None => true,
        }
}

/// Decide `two_strings_readable`.
pub fn check_two_strings_readable(p: &[u8]) -> (r: bool)
    ensures
        r == two_strings_readable(p@),
{
    if !check_leading_string_readable(p) {
        return false;
    }
    match decode_ac_string_raw(p) {
        Some((_, used)) => {
            let rest = vstd::slice::slice_subrange(p, used, p.len());
            check_leading_string_readable(rest)
        },
        None => true,
    }
}

/// Calls `LoginLoginCharacterSet::read` on the payload and moves the fields it keeps.
/// The source reserves room for each list's announced count before reading
/// it, so an absurd count can exhaust memory; no clause excludes that input.
/// `requires` leaves out a string announcing a negative length, on which
/// `readers::read_string` panics.
#[verifier::external_body]
fn decode_character_set_raw(payload: &[u8]) -> (r: Option<CharacterSetMsg>)
    requires
        strings_readable(payload@),
    ensures
        r == decoded_character_set(payload@),
{
    let mut cursor = Cursor::new(payload);
    match asheron_rs::messages::s2c::LoginLoginCharacterSet::read(&mut cursor) {
        Ok(m) => Some(CharacterSetMsg {
            account: m.account,
            characters: m.characters.list.into_iter().map(|c| CharacterIdentity {
                character_id: c.character_id.0,
                name: c.name,
                seconds_greyed_out: c.seconds_greyed_out,
            }).collect(),
            num_slots: m.num_allowed_characters,
        }),
        Err(_) => None,
    }
}

/// The character set that `decode_character_set` reports for `p`: nothing where a string
/// in it would announce a negative length, on which the reader panics.
pub open spec fn character_set_in(p: Seq<u8>) -> Option<CharacterSetMsg> {
    if strings_readable(p) { decoded_character_set(p) } else { None }
}

/// Read the character set from the payload, after testing that no string in it
/// announces a negative length.
pub(crate) fn decode_character_set(payload: &[u8]) -> (r: Option<CharacterSetMsg>)
    ensures
        r == character_set_in(payload@),
{
    if check_strings_readable(payload) { decode_character_set_raw(payload) } else { None }
}

/// Calls `ItemCreateObject::read` on the payload and moves out the object id
/// and the weenie description's fields; the item type is rendered with `{:?}`.
/// The source reserves room for each list's announced count before reading
/// it, so an absurd count can exhaust memory; no clause excludes that input.
/// `requires` leaves out a string announcing a negative length, on which
/// `readers::read_string` panics.
#[verifier::external_body]
fn decode_item_create_object_raw(payload: &[u8]) -> (r: Option<ItemCreatedMsg>)
    requires
        strings_readable(payload@),
    ensures
        r == decoded_item_create_object(payload@),
{
    let mut cursor = Cursor::new(payload);
    match asheron_rs::messages::s2c::ItemCreateObject::read(&mut cursor) {
        Ok(m) => { let w = m.weenie_description; Some(ItemCreatedMsg {
            object_id: m.object_id.0, name: w.name, item_type: format!("{:?}", w.type_),
            container_id: w.container_id.map(|id| id.0), burden: w.burden, value: w.value,
            items_capacity: w.items_capacity, container_capacity: w.container_capacity,
        }) },
        Err(_) => None,
    }
}

/// The created object that `decode_item_create_object` reports for `p`: nothing where a string
/// in it would announce a negative length, on which the reader panics.
pub open spec fn item_create_object_in(p: Seq<u8>) -> Option<ItemCreatedMsg> {
    if strings_readable(p) { decoded_item_create_object(p) } else { None }
}

/// Read the created object from the payload, after testing that no string in it
/// announces a negative length.
pub(crate) fn decode_item_create_object(payload: &[u8]) -> (r: Option<ItemCreatedMsg>)
    ensures
        r == item_create_object_in(payload@),
{
    if check_strings_readable(payload) { decode_item_create_object_raw(payload) } else { None }
}

/// Calls `DDDInterrogationMessage::read` on the payload: whether it parses.
/// The source reserves room for its language list's announced count before
/// reading it, so an absurd count can exhaust memory; no clause excludes that input.
#[verifier::external_body]
pub(crate) fn decode_ddd_interrogation(payload: &[u8]) -> (r: bool)
    ensures
        r == decodes_ddd_interrogation(payload@),
{
    let mut cursor = Cursor::new(payload);
    asheron_rs::messages::s2c::DDDInterrogationMessage::read(&mut cursor).is_ok()
}

/// Calls `LoginCreatePlayer::read` on the payload and returns the character id.
#[verifier::external_body]
pub(crate) fn decode_create_player(payload: &[u8]) -> (r: Option<u32>)
    ensures
        r == decoded_create_player(payload@),
{
    let mut cursor = Cursor::new(payload);
    match asheron_rs::messages::s2c::LoginCreatePlayer::read(&mut cursor) {
        Ok(m) => Some(m.character_id.0),
        Err(_) => None,
    }
}

/// Calls `CharacterCharacterError::read` on the payload; returns the reason's
/// number and the text its `Display` impl gives.
#[verifier::external_body]
pub(crate) fn decode_character_error(payload: &[u8]) -> (r: Option<CharacterErrorMsg>)
    ensures
        r == decoded_character_error(payload@),
{
    let mut cursor = Cursor::new(payload);
    match asheron_rs::messages::s2c::CharacterCharacterError::read(&mut cursor) {
        Ok(m) => Some(CharacterErrorMsg { code: m.reason.clone() as u32, name: format!("{}", m.reason) }),
        Err(_) => None,
    }
}

/// Calls `CommunicationHearSpeech::read` on the payload and moves its fields.
/// `requires` leaves out a string announcing a negative length, on which
/// `readers::read_string` panics.
#[verifier::external_body]
fn decode_hear_speech_raw(payload: &[u8]) -> (r: Option<SpeechMsg>)
    requires
        two_strings_readable(payload@),
    ensures
        r == decoded_hear_speech(payload@),
{
    let mut cursor = Cursor::new(payload);
    match asheron_rs::messages::s2c::CommunicationHearSpeech::read(&mut cursor) {
        Ok(m) => Some(SpeechMsg {
            message: m.message,
            sender_name: m.sender_name,
            sender_id: m.sender_id.0,
            message_type: m.type_ as u32,
        }),
        Err(_) => None,
    }
}

/// The speech that `decode_hear_speech` reports for `p`: nothing where a string
/// in it would announce a negative length, on which the reader panics.
pub open spec fn hear_speech_in(p: Seq<u8>) -> Option<SpeechMsg> {
    if two_strings_readable(p) { decoded_hear_speech(p) } else { None }
}

/// Read the speech from the payload, after testing that neither of its two
/// leading strings announces a negative length.
pub(crate) fn decode_hear_speech(payload: &[u8]) -> (r: Option<SpeechMsg>)
    ensures
        r == hear_speech_in(payload@),
{
    if check_two_strings_readable(payload) { decode_hear_speech_raw(payload) } else { None }
}

/// Calls `CommunicationHearRangedSpeech::read` on the payload and moves its fields.
/// `requires` leaves out a string announcing a negative length, on which
/// `readers::read_string` panics.
#[verifier::external_body]
fn decode_hear_ranged_speech_raw(payload: &[u8]) -> (r: Option<SpeechMsg>)
    requires
        two_strings_readable(payload@),
    ensures
        r == decoded_hear_ranged_speech(payload@),
{
    let mut cursor = Cursor::new(payload);
    match asheron_rs::messages::s2c::CommunicationHearRangedSpeech::read(&mut cursor) {
        Ok(m) => Some(SpeechMsg {
            message: m.message,
            sender_name: m.sender_name,
            sender_id: m.sender_id.0,
            message_type: m.type_ as u32,
        }),
        Err(_) => None,
    }
}

/// The ranged speech that `decode_hear_ranged_speech` reports for `p`: nothing where a string
/// in it would announce a negative length, on which the reader panics.
pub open spec fn hear_ranged_speech_in(p: Seq<u8>) -> Option<SpeechMsg> {
    if two_strings_readable(p) { decoded_hear_ranged_speech(p) } else { None }
}

/// Read the ranged speech from the payload, after testing that neither of
/// its two leading strings announces a negative length.
pub(crate) fn decode_hear_ranged_speech(payload: &[u8]) -> (r: Option<SpeechMsg>)
    ensures
        r == hear_ranged_speech_in(payload@),
{
    if check_two_strings_readable(payload) { decode_hear_ranged_speech_raw(payload) } else { None }
}

/// Calls `CharacterCharGenVerificationResponse::read` on the payload: whether it parses.
/// `requires` leaves out a string announcing a negative length, on which
/// `readers::read_string` panics.
#[verifier::external_body]
fn decode_char_gen_verification_raw(payload: &[u8]) -> (r: bool)
    requires
        strings_readable(payload@),
    ensures
        r == decodes_char_gen_verification(payload@),
{
    let mut cursor = Cursor::new(payload);
    asheron_rs::messages::s2c::CharacterCharGenVerificationResponse::read(&mut cursor).is_ok()
}

/// Whether the response parses that `decode_char_gen_verification` reports for `p`: nothing where a string
/// in it would announce a negative length, on which the reader panics.
pub open spec fn char_gen_verification_in(p: Seq<u8>) -> bool {
    strings_readable(p) && decodes_char_gen_verification(p)
}

/// Read whether the response parses from the payload, after testing that no string in it
/// announces a negative length.
pub(crate) fn decode_char_gen_verification(payload: &[u8]) -> (r: bool)
    ensures
        r == char_gen_verification_in(payload@),
{
    check_strings_readable(payload) && decode_char_gen_verification_raw(payload)
}

/// Calls the game event `CommunicationHearDirectSpeech::read` and moves its fields.
/// `requires` leaves out a string announcing a negative length, on which
/// `readers::read_string` panics.
#[verifier::external_body]
fn decode_hear_direct_speech_raw(payload: &[u8]) -> (r: Option<DirectSpeechMsg>)
    requires
        two_strings_readable(payload@),
    ensures
        r == decoded_hear_direct_speech(payload@),
{
    let mut cursor = Cursor::new(payload);
    match asheron_rs::gameevents::CommunicationHearDirectSpeech::read(&mut cursor) {
        Ok(m) => Some(DirectSpeechMsg {
            message: m.message,
            sender_name: m.sender_name,
            sender_id: m.sender_id.0,
            target_id: m.target_id.0,
            message_type: m.type_ as u32,
        }),
        Err(_) => None,
    }
}

/// The direct speech that `decode_hear_direct_speech` reports for `p`: nothing where a string
/// in it would announce a negative length, on which the reader panics.
pub open spec fn hear_direct_speech_in(p: Seq<u8>) -> Option<DirectSpeechMsg> {
    if two_strings_readable(p) { decoded_hear_direct_speech(p) } else { None }
}

/// Read the direct speech from the payload, after testing that neither of
/// its two leading strings announces a negative length.
pub(crate) fn decode_hear_direct_speech(payload: &[u8]) -> (r: Option<DirectSpeechMsg>)
    ensures
        r == hear_direct_speech_in(payload@),
{
    if check_two_strings_readable(payload) { decode_hear_direct_speech_raw(payload) } else { None }
}

/// Calls the game event `CommunicationTransientString::read` and returns its message.
/// `requires` leaves out a string announcing a negative length, on which
/// `readers::read_string` panics.
#[verifier::external_body]
fn decode_transient_string_raw(payload: &[u8]) -> (r: Option<String>)
    requires
        leading_string_readable(payload@),
    ensures
        r matches Some(s) ==> decoded_transient_string(payload@) == Some(s@),
        r is None ==> decoded_transient_string(payload@) is None,
{
    let mut cursor = Cursor::new(payload);
    match asheron_rs::gameevents::CommunicationTransientString::read(&mut cursor) {
        Ok(m) => Some(m.message),
        Err(_) => None,
    }
}

/// The transient string that `decode_transient_string` reports for `p`: nothing where a string
/// in it would announce a negative length, on which the reader panics.
pub open spec fn transient_string_in(p: Seq<u8>) -> Option<Seq<char>> {
    if leading_string_readable(p) { decoded_transient_string(p) } else { None }
}

/// Read the transient string from the payload, after testing that no string in it
/// announces a negative length.
pub(crate) fn decode_transient_string(payload: &[u8]) -> (r: Option<String>)
    ensures
        r matches Some(s) ==> transient_string_in(payload@) == Some(s@),
        r is None ==> transient_string_in(payload@) is None,
{
    if check_leading_string_readable(payload) { decode_transient_string_raw(payload) } else { None }
}

/// Calls `String::read` (an AC string) at the start of `bytes`; returns the
/// string and the number of bytes the cursor advanced.
/// `requires` leaves out a string announcing a negative length, on which
/// `readers::read_string` panics.
#[verifier::external_body]
fn decode_ac_string_raw(bytes: &[u8]) -> (r: Option<(String, usize)>)
    requires
        leading_string_readable(bytes@),
    ensures
        r matches Some(p) ==> decoded_ac_string(bytes@) == Some((p.0@, p.1 as nat)) && p.1 <= bytes@.len(),
        r is None ==> decoded_ac_string(bytes@) is None,
{
    let mut cursor = Cursor::new(bytes);
    match String::read(&mut cursor) {
        Ok(s) => Some((s, cursor.position() as usize)),
        Err(_) => None,
    }
}

/// The string that `decode_ac_string` reports for `p`: nothing where a string
/// in it would announce a negative length, on which the reader panics.
pub open spec fn ac_string_in(p: Seq<u8>) -> Option<(Seq<char>, nat)> {
    if leading_string_readable(p) { decoded_ac_string(p) } else { None }
}

/// Read the string from the payload, after testing that no string in it
/// announces a negative length.
pub(crate) fn decode_ac_string(bytes: &[u8]) -> (r: Option<(String, usize)>)
    ensures
        r matches Some(x) ==> ac_string_in(bytes@) == Some((x.0@, x.1 as nat)) && x.1 <= bytes@.len(),
        r is None ==> ac_string_in(bytes@) is None,
{
    if check_leading_string_readable(bytes) { decode_ac_string_raw(bytes) } else { None }
}

/// Calls `ConnectRequestHeader::read` on the payload and moves the fields the client keeps.
#[verifier::external_body]
pub(crate) fn decode_connect_request(payload: &[u8]) -> (r: Option<ConnectRequest>)
    ensures
        r == decoded_connect_request(payload@),
{
    let mut cursor = Cursor::new(payload);
    match asheron_rs::types::ConnectRequestHeader::read(&mut cursor) {
        Ok(h) => Some(ConnectRequest {
            cookie: h.cookie,
            net_id: h.net_id,
            outgoing_seed: h.outgoing_seed,
            incoming_seed: h.incoming_seed,
        }),
        Err(_) => None,
    }
}


/// Where a server packet's fragment header starts, for header flags `flags`:
/// after the twenty header bytes and each optional section the flags
/// announce, in the order `S2CPacket::read` reads them (AckSequence 4 bytes,
/// LogonServerAddr 16, Referral 32 with its alignment, ConnectRequest 32,
/// NetError 8, NetErrorDisconnect 8, EchoResponse 8).
pub open spec fn fragment_offset(flags: u32) -> int {
    20 + (if flags & 0x4000 != 0 { 4int } else { 0 })
        + (if flags & 0x200 != 0 { 16int } else { 0 })
        + (if flags & 0x800 != 0 { 32int } else { 0 })
        + (if flags & 0x40000 != 0 { 32int } else { 0 })
        + (if flags & 0x100000 != 0 { 8int } else { 0 })
        + (if flags & 0x200000 != 0 { 8int } else { 0 })
        + (if flags & 0x4000000 != 0 { 8int } else { 0 })
}

/// Whether reading `packet` stops short of the fragment size, or finds it
/// at least sixteen: the reader subtracts the sixteen header bytes from that
/// `u16` unchecked, which overflows below sixteen.
pub open spec fn fragment_size_readable(packet: Seq<u8>) -> bool {
    packet.len() >= 20 && u32_from_le(packet, 4) & 0x4 != 0
        && fragment_offset(u32_from_le(packet, 4)) + 12 <= packet.len()
        ==> u16_from_le(packet, fragment_offset(u32_from_le(packet, 4)) + 10) >= 16
}

/// Decide `fragment_size_readable`.
pub fn check_fragment_size_readable(packet: &[u8]) -> (r: bool)
    ensures
        r == fragment_size_readable(packet@),
{
    if packet.len() < 20 {
        return true;
    }
    let flags = read_u32_at(packet, 4);
    if flags & 0x4 == 0 {
        return true;
    }
    let mut off: usize = 20;
    if flags & 0x4000 != 0 { off = off + 4; }
    if flags & 0x200 != 0 { off = off + 16; }
    if flags & 0x800 != 0 { off = off + 32; }
    if flags & 0x40000 != 0 { off = off + 32; }
    if flags & 0x100000 != 0 { off = off + 8; }
    if flags & 0x200000 != 0 { off = off + 8; }
    if flags & 0x4000000 != 0 { off = off + 8; }
    assert(off == fragment_offset(flags));
    if packet.len() < off + 12 {
        return true;
    }
    read_u16_at(packet, off + 10) >= 16
}

/// Calls `S2CPacket::read` on a whole packet and moves out its fragment, if any.
/// The source subtracts the fragment header's sixteen bytes from the
/// fragment's size field unchecked; `requires` leaves out a size below sixteen.
#[verifier::external_body]
pub(crate) fn decode_blob_fragment(packet: &[u8]) -> (r: Option<BlobFragment>)
    requires
        fragment_size_readable(packet@),
    ensures
        r == decoded_blob_fragment(packet@),
{
    let mut cursor = Cursor::new(packet);
    match asheron_rs::packets::s2c_packet::S2CPacket::read(&mut cursor) {
        Ok(p) => match p.fragments {
            Some(f) => Some(BlobFragment {
                sequence: f.sequence, id: f.id, count: f.count, size: f.size,
                index: f.index, group: f.group as u16, data: f.data,
            }),
            None => None,
        },
        Err(_) => None,
    }
}

/// The bytes `C2SMessage::OrderedGameAction { sequence, CharacterLoginCompleteNotification }`
/// writes: the OrderedGameAction opcode, the sequence, the action's opcode;
/// the notification has no fields.
pub open spec fn login_complete_action(sequence: u32) -> Seq<u8> {
    u32_le(0xF7B1) + u32_le(sequence) + u32_le(0xA1)
}

/// The bytes `C2SMessage::OrderedGameAction { sequence, CommunicationTalk { message } }`
/// writes: the OrderedGameAction opcode, the sequence, the action's opcode
/// 0x15, then the message as an AC string.
pub open spec fn talk_action(sequence: u32, message: Seq<char>) -> Seq<u8> {
    u32_le(0xF7B1) + u32_le(sequence) + u32_le(0x15) + ac_string_bytes(message)
}

/// The bytes `C2SMessage::OrderedGameAction { sequence, CommunicationTalkDirectByName { message, target_name } }`
/// writes: the OrderedGameAction opcode, the sequence, the action's opcode
/// 0x5D, then the message and the target's name as AC strings.
pub open spec fn tell_action(sequence: u32, message: Seq<char>, target_name: Seq<char>) -> Seq<u8> {
    u32_le(0xF7B1) + u32_le(sequence) + u32_le(0x5D) + ac_string_bytes(message) + ac_string_bytes(target_name)
}

/// The bytes `C2SMessage::LoginSendEnterWorld { character_id, account }`
/// writes: its opcode 0xF657, the character id, then the account as an AC string.
pub open spec fn enter_world_message(character_id: u32, account: Seq<char>) -> Seq<u8> {
    u32_le(0xF657) + u32_le(character_id) + ac_string_bytes(account)
}

/// Calls `C2SMessage::write` for an ordered CharacterLoginCompleteNotification.
/// Writing to memory cannot fail; the error arm only converts the `Result`.
#[verifier::external_body]
pub(crate) fn login_complete_action_bytes(sequence: u32) -> (r: Vec<u8>)
    ensures
        r@ == login_complete_action(sequence),
{
    let msg = C2SMessage::OrderedGameAction {
        sequence,
        action: GameActionMessage::CharacterLoginCompleteNotification(
            asheron_rs::gameactions::CharacterLoginCompleteNotification {},
        ),
    };
    let mut cursor = Cursor::new(Vec::new());
    match msg.write(&mut cursor) { Ok(()) => cursor.into_inner(), Err(_) => Vec::new() }
}

/// Calls `C2SMessage::write` for an ordered CommunicationTalk.
#[verifier::external_body]
pub(crate) fn talk_action_bytes(sequence: u32, message: &str) -> (r: Vec<u8>)
    ensures
        r@ == talk_action(sequence, message@),
{
    let msg = C2SMessage::OrderedGameAction {
        sequence,
        action: GameActionMessage::CommunicationTalk(asheron_rs::gameactions::CommunicationTalk {
            message: message.to_string(),
        }),
    };
    let mut cursor = Cursor::new(Vec::new());
    match msg.write(&mut cursor) { Ok(()) => cursor.into_inner(), Err(_) => Vec::new() }
}

/// Calls `C2SMessage::write` for an ordered CommunicationTalkDirectByName.
#[verifier::external_body]
pub(crate) fn tell_action_bytes(sequence: u32, message: &str, target_name: &str) -> (r: Vec<u8>)
    ensures
        r@ == tell_action(sequence, message@, target_name@),
{
    let msg = C2SMessage::OrderedGameAction {
        sequence,
        action: GameActionMessage::CommunicationTalkDirectByName(
            asheron_rs::gameactions::CommunicationTalkDirectByName {
                message: message.to_string(),
                target_name: target_name.to_string(),
            },
        ),
    };
    let mut cursor = Cursor::new(Vec::new());
    match msg.write(&mut cursor) { Ok(()) => cursor.into_inner(), Err(_) => Vec::new() }
}

/// Calls `C2SMessage::write` for LoginSendEnterWorldRequest, whose body is
/// empty in the source: only its opcode 0xF7C8 is written.
#[verifier::external_body]
pub(crate) fn enter_world_request_bytes() -> (r: Vec<u8>)
    ensures
        r@ == u32_le(0xF7C8),
{
    let msg = C2SMessage::LoginSendEnterWorldRequest(asheron_rs::messages::c2s::LoginSendEnterWorldRequest {});
    let mut cursor = Cursor::new(Vec::new());
    match msg.write(&mut cursor) { Ok(()) => cursor.into_inner(), Err(_) => Vec::new() }
}

/// Calls `C2SMessage::write` for LoginSendEnterWorld.
#[verifier::external_body]
pub(crate) fn enter_world_bytes(character_id: u32, account: &str) -> (r: Vec<u8>)
    ensures
        r@ == enter_world_message(character_id, account@),
{
    let msg = C2SMessage::LoginSendEnterWorld(asheron_rs::messages::c2s::LoginSendEnterWorld {
        character_id: asheron_rs::types::ObjectId(character_id),
        account: account.to_string(),
    });
    let mut cursor = Cursor::new(Vec::new());
    match msg.write(&mut cursor) { Ok(()) => cursor.into_inner(), Err(_) => Vec::new() }
}

} // verus!

use vstd::prelude::*;

verus! {

/// What went wrong while handling a message.
#[derive(Clone, Copy, Debug, PartialEq, Eq, Structural)]
pub enum ErrorKind {
    AgentNotEnteredTheRoom,
    MessageBuildingFailed,
    MessageHandlingFailed,
    MessageParsingFailed,
    PayloadParsingFailed,
    PublishFailed,
    RoomNotFound,
}

pub const NOT_FOUND: u16 = 404;

pub const BAD_REQUEST: u16 = 400;

pub const METHOD_NOT_ALLOWED: u16 = 405;

pub const UNPROCESSABLE_ENTITY: u16 = 422;

pub const OK: u16 = 200;

impl ErrorKind {
    pub open spec fn status_spec(self) -> u16 {
        match self {
            ErrorKind::AgentNotEnteredTheRoom => NOT_FOUND,
            ErrorKind::RoomNotFound => NOT_FOUND,
            ErrorKind::PayloadParsingFailed => BAD_REQUEST,
            _ => UNPROCESSABLE_ENTITY,
        }
    }

    pub open spec fn kind_spec(self) -> Seq<char> {
        match self {
            ErrorKind::AgentNotEnteredTheRoom => "agent_not_entered_the_room"@,
            ErrorKind::MessageBuildingFailed => "message_building_failed"@,
            ErrorKind::MessageHandlingFailed => "message_handling_failed"@,
            ErrorKind::MessageParsingFailed => "message_parsing_failed"@,
            ErrorKind::PayloadParsingFailed => "payload_parsing_failed"@,
            ErrorKind::PublishFailed => "publish_failed"@,
            ErrorKind::RoomNotFound => "room_not_found"@,
        }
    }

    pub open spec fn title_spec(self) -> Seq<char> {
        match self {
            ErrorKind::AgentNotEnteredTheRoom => "Agent not entered the room"@,
            ErrorKind::MessageBuildingFailed => "Message building failed"@,
            ErrorKind::MessageHandlingFailed => "Message handling failed"@,
            ErrorKind::MessageParsingFailed => "Message parsing failed"@,
            ErrorKind::PayloadParsingFailed => "Payload parsing failed"@,
            ErrorKind::PublishFailed => "Publish failed"@,
            ErrorKind::RoomNotFound => "Room not found"@,
        }
    }

    pub open spec fn detail_spec(self) -> Seq<char> {
        match self {
            ErrorKind::AgentNotEnteredTheRoom => "Agent is not online in the room"@,
            ErrorKind::MessageBuildingFailed => "Failed to build a message"@,
            ErrorKind::MessageHandlingFailed => "Failed to handle a message"@,
            ErrorKind::MessageParsingFailed => "Failed to decode the correlation data"@,
            ErrorKind::PayloadParsingFailed => "Failed to parse the payload"@,
            ErrorKind::PublishFailed => "Failed to publish a message"@,
            ErrorKind::RoomNotFound => "Room not found or closed"@,
        }
    }

    /// What went wrong, for the reader of an error response.
    pub fn detail(self) -> (r: &'static str)
        ensures
            r@ == self.detail_spec(),
    {
        match self {
            ErrorKind::AgentNotEnteredTheRoom => "Agent is not online in the room",
            ErrorKind::MessageBuildingFailed => "Failed to build a message",
            ErrorKind::MessageHandlingFailed => "Failed to handle a message",
            ErrorKind::MessageParsingFailed => "Failed to decode the correlation data",
            ErrorKind::PayloadParsingFailed => "Failed to parse the payload",
            ErrorKind::PublishFailed => "Failed to publish a message",
            ErrorKind::RoomNotFound => "Room not found or closed",
        }
    }

    /// The response status that reports this kind of error.
    pub fn status(self) -> (r: u16)
        ensures
            r == self.status_spec(),
    {
        match self {
            ErrorKind::AgentNotEnteredTheRoom => NOT_FOUND,
            ErrorKind::RoomNotFound => NOT_FOUND,
            ErrorKind::PayloadParsingFailed => BAD_REQUEST,
            _ => UNPROCESSABLE_ENTITY,
        }
    }

    /// The machine-readable name of this kind of error.
    pub fn kind(self) -> (r: &'static str)
        ensures
            r@ == self.kind_spec(),
    {
        match self {
            ErrorKind::AgentNotEnteredTheRoom => "agent_not_entered_the_room",
            ErrorKind::MessageBuildingFailed => "message_building_failed",
            ErrorKind::MessageHandlingFailed => "message_handling_failed",
            ErrorKind::MessageParsingFailed => "message_parsing_failed",
            ErrorKind::PayloadParsingFailed => "payload_parsing_failed",
            ErrorKind::PublishFailed => "publish_failed",
            ErrorKind::RoomNotFound => "room_not_found",
        }
    }

    /// A short human-readable summary of this kind of error.
    pub fn title(self) -> (r: &'static str)
        ensures
            r@ == self.title_spec(),
    {
        match self {
            ErrorKind::AgentNotEnteredTheRoom => "Agent not entered the room",
            ErrorKind::MessageBuildingFailed => "Message building failed",
            ErrorKind::MessageHandlingFailed => "Message handling failed",
            ErrorKind::MessageParsingFailed => "Message parsing failed",
            ErrorKind::PayloadParsingFailed => "Payload parsing failed",
            ErrorKind::PublishFailed => "Publish failed",
            ErrorKind::RoomNotFound => "Room not found",
        }
    }
}

/// An error of a handler.
#[derive(Clone, Copy, Debug, PartialEq, Eq, Structural)]
pub struct AppError {
    pub kind: ErrorKind,
}

impl AppError {
    pub fn new(kind: ErrorKind) -> (r: AppError)
        ensures
            r.kind == kind,
    {
        AppError { kind }
    }

    pub fn status(&self) -> (r: u16)
        ensures
            r == self.kind.status_spec(),
    {
        self.kind.status()
    }

    pub fn kind(&self) -> (r: &'static str)
        ensures
            r@ == self.kind.kind_spec(),
    {
        self.kind.kind()
    }

    pub fn title(&self) -> (r: &'static str)
        ensures
            r@ == self.kind.title_spec(),
    {
        self.kind.title()
    }

    pub fn detail(&self) -> (r: &'static str)
        ensures
            r@ == self.kind.detail_spec(),
    {
        self.kind.detail()
    }
}

} // verus!

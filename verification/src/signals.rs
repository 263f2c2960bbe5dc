//! Event flags exchanged between the tasks of the controller: display events,
//! application errors and the status of the main state machine.
use vstd::prelude::*;

verus! {

/// Bit mask of events, as carried by an event group.
pub type EventBits = u32;

/// Events that reach the display task.
#[derive(Clone, Copy, PartialEq, Eq, Debug, Structural)]
pub enum DisplayFlag {
    Empty,
    ButtonPressed,
    ButtonReleased,
    EncoderButtonPressed,
    EncoderButtonReleased,
    EncoderRotatedClockwise,
    EncoderRotatedCounterClockwise,
    WifiStatusUnknown,
    WifiStatusExcellent,
    WifiStatusGood,
    WifiStatusFair,
    WifiStatusWeak,
    WifiStatusNoSignal,
    Draw,
}

/// The bit pattern of a display flag.
pub open spec fn display_bits(f: DisplayFlag) -> u32 {
    match f {
        DisplayFlag::Empty => 0x00,
        DisplayFlag::ButtonPressed => 0x01,
        DisplayFlag::ButtonReleased => 0x02,
        DisplayFlag::EncoderButtonPressed => 0x04,
        DisplayFlag::EncoderButtonReleased => 0x08,
        DisplayFlag::EncoderRotatedClockwise => 0x10,
        DisplayFlag::EncoderRotatedCounterClockwise => 0x20,
        DisplayFlag::WifiStatusUnknown => 0x40,
        DisplayFlag::WifiStatusExcellent => 0x80,
        DisplayFlag::WifiStatusGood => 0xC0,
        DisplayFlag::WifiStatusFair => 0x0100,
        DisplayFlag::WifiStatusWeak => 0x0140,
        DisplayFlag::WifiStatusNoSignal => 0x0180,
        DisplayFlag::Draw => 0x0080_0000,
    }
}

/// The display flag with the given bit pattern; `Empty` for any other value.
pub open spec fn display_from_spec(v: u32) -> DisplayFlag {
    if v == 0x01 { DisplayFlag::ButtonPressed }
    else if v == 0x02 { DisplayFlag::ButtonReleased }
    else if v == 0x04 { DisplayFlag::EncoderButtonPressed }
    else if v == 0x08 { DisplayFlag::EncoderButtonReleased }
    else if v == 0x10 { DisplayFlag::EncoderRotatedClockwise }
    else if v == 0x20 { DisplayFlag::EncoderRotatedCounterClockwise }
    else if v == 0x40 { DisplayFlag::WifiStatusUnknown }
    else if v == 0x80 { DisplayFlag::WifiStatusExcellent }
    else if v == 0xC0 { DisplayFlag::WifiStatusGood }
    else if v == 0x0100 { DisplayFlag::WifiStatusFair }
    else if v == 0x0140 { DisplayFlag::WifiStatusWeak }
    else if v == 0x0180 { DisplayFlag::WifiStatusNoSignal }
    else if v == 0x0080_0000 { DisplayFlag::Draw }
    else { DisplayFlag::Empty }
}

impl DisplayFlag {
    /// The flag's bit pattern.
    pub fn bits(self) -> (r: u32)
        ensures
            r == display_bits(self),
    {
        match self {
            DisplayFlag::Empty => 0x00,
            DisplayFlag::ButtonPressed => 0x01,
            DisplayFlag::ButtonReleased => 0x02,
            DisplayFlag::EncoderButtonPressed => 0x04,
            DisplayFlag::EncoderButtonReleased => 0x08,
            DisplayFlag::EncoderRotatedClockwise => 0x10,
            DisplayFlag::EncoderRotatedCounterClockwise => 0x20,
            DisplayFlag::WifiStatusUnknown => 0x40,
            DisplayFlag::WifiStatusExcellent => 0x80,
            DisplayFlag::WifiStatusGood => 0xC0,
            DisplayFlag::WifiStatusFair => 0x0100,
            DisplayFlag::WifiStatusWeak => 0x0140,
            DisplayFlag::WifiStatusNoSignal => 0x0180,
            DisplayFlag::Draw => 0x0080_0000,
        }
    }

    /// The flag whose bit pattern is `v`, or `Empty` when no flag has it.
    pub fn from_bits(v: u32) -> (r: DisplayFlag)
        ensures
            r == display_from_spec(v),
    {
        if v == 0x01 { DisplayFlag::ButtonPressed }
        else if v == 0x02 { DisplayFlag::ButtonReleased }
        else if v == 0x04 { DisplayFlag::EncoderButtonPressed }
        else if v == 0x08 { DisplayFlag::EncoderButtonReleased }
        else if v == 0x10 { DisplayFlag::EncoderRotatedClockwise }
        else if v == 0x20 { DisplayFlag::EncoderRotatedCounterClockwise }
        else if v == 0x40 { DisplayFlag::WifiStatusUnknown }
        else if v == 0x80 { DisplayFlag::WifiStatusExcellent }
        else if v == 0xC0 { DisplayFlag::WifiStatusGood }
        else if v == 0x0100 { DisplayFlag::WifiStatusFair }
        else if v == 0x0140 { DisplayFlag::WifiStatusWeak }
        else if v == 0x0180 { DisplayFlag::WifiStatusNoSignal }
        else if v == 0x0080_0000 { DisplayFlag::Draw }
        else { DisplayFlag::Empty }
    }
}

/// Reading a display flag back from its bits gives the same flag.
pub proof fn lemma_display_flag_roundtrip(f: DisplayFlag)
    ensures
        display_from_spec(display_bits(f)) == f,
{
}

/// Errors that the application raises.
#[derive(Clone, Copy, PartialEq, Eq, Debug, Structural)]
pub enum ErrorFlag {
    Empty,
    NTP,
    DateTime,
    Display,
    DisplayHeader,
}

/// The bit pattern of an error flag.
pub open spec fn error_bits(f: ErrorFlag) -> u32 {
    match f {
        ErrorFlag::Empty => 0x00,
        ErrorFlag::NTP => 0x01,
        ErrorFlag::DateTime => 0x02,
        ErrorFlag::Display => 0x04,
        ErrorFlag::DisplayHeader => 0x08,
    }
}

/// Decoding of an error value: only the NTP, date-time and display bits are
/// recognised, every other value reads as `Empty`.
pub open spec fn error_from_spec(v: u32) -> ErrorFlag {
    if v == 0x01 { ErrorFlag::NTP }
    else if v == 0x02 { ErrorFlag::DateTime }
    else if v == 0x04 { ErrorFlag::Display }
    else { ErrorFlag::Empty }
}

impl ErrorFlag {
    /// The flag's bit pattern.
    pub fn bits(self) -> (r: u32)
        ensures
            r == error_bits(self),
    {
        match self {
            ErrorFlag::Empty => 0x00,
            ErrorFlag::NTP => 0x01,
            ErrorFlag::DateTime => 0x02,
            ErrorFlag::Display => 0x04,
            ErrorFlag::DisplayHeader => 0x08,
        }
    }

    /// Decodes an error value (see `error_from_spec`).
    pub fn from_bits(v: u32) -> (r: ErrorFlag)
        ensures
            r == error_from_spec(v),
    {
        if v == 0x01 { ErrorFlag::NTP }
        else if v == 0x02 { ErrorFlag::DateTime }
        else if v == 0x04 { ErrorFlag::Display }
        else { ErrorFlag::Empty }
    }

    /// The flag's name, as it is written in logs.
    pub fn name(self) -> (r: &'static str)
        ensures
            r@ == error_name(self),
    {
        match self {
            ErrorFlag::Empty => "None",
            ErrorFlag::NTP => "NTP",
            ErrorFlag::DateTime => "DateTime",
            ErrorFlag::Display => "Display",
            ErrorFlag::DisplayHeader => "DisplayHeader",
        }
    }
}

/// The printed name of an error flag.
pub open spec fn error_name(f: ErrorFlag) -> Seq<char> {
    match f {
        ErrorFlag::Empty => "None"@,
        ErrorFlag::NTP => "NTP"@,
        ErrorFlag::DateTime => "DateTime"@,
        ErrorFlag::Display => "Display"@,
        ErrorFlag::DisplayHeader => "DisplayHeader"@,
    }
}

/// Every error flag but the display-header one reads back from its bits.
pub proof fn lemma_error_flag_roundtrip(f: ErrorFlag)
    requires
        f != ErrorFlag::DisplayHeader,
    ensures
        error_from_spec(error_bits(f)) == f,
{
}

/// Where a command came from.
#[derive(Clone, Copy, PartialEq, Eq, Debug, Structural)]
pub enum Source {
    System,
    Mqtt,
    Uart,
}

/// States of the main state machine and the flags that share its event group.
#[derive(Clone, Copy, PartialEq, Eq, Debug, Structural)]
pub enum StatusFlag {
    Empty,
    Startup,
    EnableSystemHandler,
    EnableSession,
    EnableParser,
    EnableDisplay,
    CheckConfig,
    EnableWifi,
    Ready,
    Error,
    Reset,
    SystemCmd,
    MqttCmd,
    UartCmd,
    UserLogged,
}

/// The bit pattern of a status flag.
pub open spec fn status_bits(f: StatusFlag) -> u32 {
    match f {
        StatusFlag::Empty => 0x00,
        StatusFlag::Startup => 0x01,
        StatusFlag::EnableSystemHandler => 0x02,
        StatusFlag::EnableSession => 0x04,
        StatusFlag::EnableParser => 0x08,
        StatusFlag::EnableDisplay => 0x10,
        StatusFlag::CheckConfig => 0x20,
        StatusFlag::EnableWifi => 0x40,
        StatusFlag::Ready => 0x80,
        StatusFlag::Error => 0x0100,
        StatusFlag::Reset => 0x0200,
        StatusFlag::SystemCmd => 0x0010_0000,
        StatusFlag::MqttCmd => 0x0020_0000,
        StatusFlag::UartCmd => 0x0040_0000,
        StatusFlag::UserLogged => 0x0080_0000,
    }
}

/// The status flag with the given bit pattern; `Empty` for any other value.
pub open spec fn status_from_spec(v: u32) -> StatusFlag {
    if v == 0x01 { StatusFlag::Startup }
    else if v == 0x02 { StatusFlag::EnableSystemHandler }
    else if v == 0x04 { StatusFlag::EnableSession }
    else if v == 0x08 { StatusFlag::EnableParser }
    else if v == 0x10 { StatusFlag::EnableDisplay }
    else if v == 0x20 { StatusFlag::CheckConfig }
    else if v == 0x40 { StatusFlag::EnableWifi }
    else if v == 0x80 { StatusFlag::Ready }
    else if v == 0x0100 { StatusFlag::Error }
    else if v == 0x0200 { StatusFlag::Reset }
    else if v == 0x0010_0000 { StatusFlag::SystemCmd }
    else if v == 0x0020_0000 { StatusFlag::MqttCmd }
    else if v == 0x0040_0000 { StatusFlag::UartCmd }
    else if v == 0x0080_0000 { StatusFlag::UserLogged }
    else { StatusFlag::Empty }
}

/// The command flag that marks a command coming from `s`.
pub open spec fn source_flag(s: Source) -> StatusFlag {
    match s {
        Source::System => StatusFlag::SystemCmd,
        Source::Mqtt => StatusFlag::MqttCmd,
        Source::Uart => StatusFlag::UartCmd,
    }
}

/// The printed name of a status flag.
pub open spec fn status_name(f: StatusFlag) -> Seq<char> {
    match f {
        StatusFlag::Empty => "None"@,
        StatusFlag::Startup => "Startup"@,
        StatusFlag::EnableSystemHandler => "EnableSystemHandler"@,
        StatusFlag::EnableSession => "EnableSession"@,
        StatusFlag::EnableParser => "EnableParser"@,
        StatusFlag::EnableDisplay => "EnableDisplay"@,
        StatusFlag::CheckConfig => "CheckConfig"@,
        StatusFlag::EnableWifi => "EnableWifi"@,
        StatusFlag::Ready => "Ready"@,
        StatusFlag::Error => "Error"@,
        StatusFlag::Reset => "Reset"@,
        StatusFlag::SystemCmd => "SystemCmd"@,
        StatusFlag::MqttCmd => "MqttCmd"@,
        StatusFlag::UartCmd => "UartCmd"@,
        StatusFlag::UserLogged => "UserLogged"@,
    }
}

impl StatusFlag {
    /// The flag's bit pattern.
    pub fn bits(self) -> (r: u32)
        ensures
            r == status_bits(self),
    {
        match self {
            StatusFlag::Empty => 0x00,
            StatusFlag::Startup => 0x01,
            StatusFlag::EnableSystemHandler => 0x02,
            StatusFlag::EnableSession => 0x04,
            StatusFlag::EnableParser => 0x08,
            StatusFlag::EnableDisplay => 0x10,
            StatusFlag::CheckConfig => 0x20,
            StatusFlag::EnableWifi => 0x40,
            StatusFlag::Ready => 0x80,
            StatusFlag::Error => 0x0100,
            StatusFlag::Reset => 0x0200,
            StatusFlag::SystemCmd => 0x0010_0000,
            StatusFlag::MqttCmd => 0x0020_0000,
            StatusFlag::UartCmd => 0x0040_0000,
            StatusFlag::UserLogged => 0x0080_0000,
        }
    }

    /// The flag whose bit pattern is `v`, or `Empty` when no flag has it.
    pub fn from_bits(v: u32) -> (r: StatusFlag)
        ensures
            r == status_from_spec(v),
    {
        if v == 0x01 { StatusFlag::Startup }
        else if v == 0x02 { StatusFlag::EnableSystemHandler }
        else if v == 0x04 { StatusFlag::EnableSession }
        else if v == 0x08 { StatusFlag::EnableParser }
        else if v == 0x10 { StatusFlag::EnableDisplay }
        else if v == 0x20 { StatusFlag::CheckConfig }
        else if v == 0x40 { StatusFlag::EnableWifi }
        else if v == 0x80 { StatusFlag::Ready }
        else if v == 0x0100 { StatusFlag::Error }
        else if v == 0x0200 { StatusFlag::Reset }
        else if v == 0x0010_0000 { StatusFlag::SystemCmd }
        else if v == 0x0020_0000 { StatusFlag::MqttCmd }
        else if v == 0x0040_0000 { StatusFlag::UartCmd }
        else if v == 0x0080_0000 { StatusFlag::UserLogged }
        else { StatusFlag::Empty }
    }

    /// The command flag for a command source.
    pub fn from_source(s: Source) -> (r: StatusFlag)
        ensures
            r == source_flag(s),
    {
        match s {
            Source::System => StatusFlag::SystemCmd,
            Source::Mqtt => StatusFlag::MqttCmd,
            Source::Uart => StatusFlag::UartCmd,
        }
    }

    /// The flag's name.
    pub fn as_str(self) -> (r: &'static str)
        ensures
            r@ == status_name(self),
    {
        match self {
            StatusFlag::Empty => "None",
            StatusFlag::Startup => "Startup",
            StatusFlag::EnableSystemHandler => "EnableSystemHandler",
            StatusFlag::EnableSession => "EnableSession",
            StatusFlag::EnableParser => "EnableParser",
            StatusFlag::EnableDisplay => "EnableDisplay",
            StatusFlag::CheckConfig => "CheckConfig",
            StatusFlag::EnableWifi => "EnableWifi",
            StatusFlag::Ready => "Ready",
            StatusFlag::Error => "Error",
            StatusFlag::Reset => "Reset",
            StatusFlag::SystemCmd => "SystemCmd",
            StatusFlag::MqttCmd => "MqttCmd",
            StatusFlag::UartCmd => "UartCmd",
            StatusFlag::UserLogged => "UserLogged",
        }
    }

    /// Whether the flag's bits are raised in `signal`.
    pub fn check_signal(self, signal: EventBits) -> (r: bool)
        ensures
            r == (signal & status_bits(self) != 0),
    {
        signal & self.bits() != 0
    }
}

/// Reading a status flag back from its bits gives the same flag.
pub proof fn lemma_status_flag_roundtrip(f: StatusFlag)
    ensures
        status_from_spec(status_bits(f)) == f,
{
}

/// Whether the bits of `flag` are raised in `signal`.
pub open spec fn has_event_spec(signal: EventBits, flag: DisplayFlag) -> bool {
    signal & display_bits(flag) != 0
}

/// Whether the bits of `flag` are raised in `signal`.
pub fn has_event(signal: EventBits, flag: DisplayFlag) -> (r: bool)
    ensures
        r == has_event_spec(signal, flag),
{
    signal & flag.bits() != 0
}

/// When `flag` is raised in `signal`, lowers it and answers `true`; otherwise
/// leaves `signal` as it is and answers `false`.
pub fn consume_event(signal: &mut EventBits, flag: DisplayFlag) -> (r: bool)
    ensures
        r == has_event_spec(*old(signal), flag),
        r ==> *final(signal) == *old(signal) & !display_bits(flag),
        !r ==> *final(signal) == *old(signal),
{
    if has_event(*signal, flag) {
        *signal = *signal & !flag.bits();
        true
    } else {
        false
    }
}

/// Raises the redraw flag.
pub fn request_draw(signal: &mut EventBits)
    ensures
        *final(signal) == *old(signal) | 0x0080_0000u32,
{
    *signal = *signal | 0x0080_0000u32;
}

/// Once consumed, an event is no longer raised, and the other bits are kept.
pub proof fn lemma_consume_lowers_only_the_flag(signal: EventBits, flag: DisplayFlag)
    ensures
        !has_event_spec(signal & !display_bits(flag), flag),
        forall|b: u32| #![trigger (signal & !display_bits(flag)) & b]
            b & display_bits(flag) == 0 ==> (signal & !display_bits(flag)) & b == signal & b,
{
    let m = display_bits(flag);
    assert((signal & !m) & m == 0) by (bit_vector);
    assert forall|b: u32| b & m == 0 implies #[trigger] ((signal & !m) & b) == signal & b by {
        assert(b & m == 0 ==> (signal & !m) & b == signal & b) by (bit_vector);
    }
}

/// State of a push button as its driver reports it.
#[derive(Clone, Copy, PartialEq, Eq, Debug, Structural)]
pub enum ButtonState {
    Idle,
    Pressed,
    Released,
}

/// Turning direction of the rotary encoder.
#[derive(Clone, Copy, PartialEq, Eq, Debug, Structural)]
pub enum EncoderDirection {
    Clockwise,
    CounterClockwise,
}

/// The display event raised by a state change of the stand-alone button.
pub fn button_event(state: ButtonState) -> (r: Option<DisplayFlag>)
    ensures
        r == (match state {
            ButtonState::Pressed => Some(DisplayFlag::ButtonPressed),
            ButtonState::Released => Some(DisplayFlag::ButtonReleased),
            ButtonState::Idle => None::<DisplayFlag>,
        }),
{
    match state {
        ButtonState::Pressed => Some(DisplayFlag::ButtonPressed),
        ButtonState::Released => Some(DisplayFlag::ButtonReleased),
        ButtonState::Idle => None,
    }
}

/// The display event raised by a state change of the encoder's push button.
pub fn encoder_button_event(state: ButtonState) -> (r: Option<DisplayFlag>)
    ensures
        r == (match state {
            ButtonState::Pressed => Some(DisplayFlag::EncoderButtonPressed),
            ButtonState::Released => Some(DisplayFlag::EncoderButtonReleased),
            ButtonState::Idle => None::<DisplayFlag>,
        }),
{
    match state {
        ButtonState::Pressed => Some(DisplayFlag::EncoderButtonPressed),
        ButtonState::Released => Some(DisplayFlag::EncoderButtonReleased),
        ButtonState::Idle => None,
    }
}

/// The display event raised by a turn of the encoder.
pub fn rotation_event(direction: EncoderDirection) -> (r: DisplayFlag)
    ensures
        r == (match direction {
            EncoderDirection::Clockwise => DisplayFlag::EncoderRotatedClockwise,
            EncoderDirection::CounterClockwise => DisplayFlag::EncoderRotatedCounterClockwise,
        }),
{
    match direction {
        EncoderDirection::Clockwise => DisplayFlag::EncoderRotatedClockwise,
        EncoderDirection::CounterClockwise => DisplayFlag::EncoderRotatedCounterClockwise,
    }
}

} // verus!

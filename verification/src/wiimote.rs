use vstd::prelude::*;

verus! {

pub const BTN_TWO: u16 = 0x0001;
pub const BTN_ONE: u16 = 0x0002;
pub const BTN_B: u16 = 0x0004;
pub const BTN_A: u16 = 0x0008;
pub const BTN_MINUS: u16 = 0x0010;
pub const BTN_HOME: u16 = 0x0080;
pub const BTN_LEFT: u16 = 0x0100;
pub const BTN_RIGHT: u16 = 0x0200;
pub const BTN_DOWN: u16 = 0x0400;
pub const BTN_UP: u16 = 0x0800;
pub const BTN_PLUS: u16 = 0x1000;

pub const NUNCHUK_BTN_C: u8 = 0x02;
pub const NUNCHUK_BTN_Z: u8 = 0x01;

pub const HID_PREFIX_INPUT: u8 = 0xA1;
pub const HID_PREFIX_OUTPUT: u8 = 0xA2;

pub const WIIMOTE_EEPROM_SIZE: usize = 0x1700;

/// Output reports the host writes on the HID interrupt channel.
#[derive(Debug, Clone, Copy, PartialEq, Eq, Structural)]
pub enum OutputReportId {
    Rumble,
    PlayerLeds,
    DataReportingMode,
    IrCameraEnable,
    SpeakerEnable,
    StatusInformationRequest,
    WriteMemoryAndRegisters,
    ReadMemoryAndRegisters,
    SpeakerData,
    SpeakerMute,
    IrCameraEnable2,
}

pub open spec fn output_report_id_of(id: u8) -> Option<OutputReportId> {
    if id == 0x10 {
        Some(OutputReportId::Rumble)
    } else if id == 0x11 {
        Some(OutputReportId::PlayerLeds)
    } else if id == 0x12 {
        Some(OutputReportId::DataReportingMode)
    } else if id == 0x13 {
        Some(OutputReportId::IrCameraEnable)
    } else if id == 0x14 {
        Some(OutputReportId::SpeakerEnable)
    } else if id == 0x15 {
        Some(OutputReportId::StatusInformationRequest)
    } else if id == 0x16 {
        Some(OutputReportId::WriteMemoryAndRegisters)
    } else if id == 0x17 {
        Some(OutputReportId::ReadMemoryAndRegisters)
    } else if id == 0x18 {
        Some(OutputReportId::SpeakerData)
    } else if id == 0x19 {
        Some(OutputReportId::SpeakerMute)
    } else if id == 0x1A {
        Some(OutputReportId::IrCameraEnable2)
    } else {
        None
    }
}

impl OutputReportId {
    pub fn from_u8(id: u8) -> (r: Option<Self>)
        ensures
            r == output_report_id_of(id),
    {
        match id {
            0x10 => Some(Self::Rumble),
            0x11 => Some(Self::PlayerLeds),
            0x12 => Some(Self::DataReportingMode),
            0x13 => Some(Self::IrCameraEnable),
            0x14 => Some(Self::SpeakerEnable),
            0x15 => Some(Self::StatusInformationRequest),
            0x16 => Some(Self::WriteMemoryAndRegisters),
            0x17 => Some(Self::ReadMemoryAndRegisters),
            0x18 => Some(Self::SpeakerData),
            0x19 => Some(Self::SpeakerMute),
            0x1A => Some(Self::IrCameraEnable2),
            _ => None,
        }
    }
}

/// Data reporting modes the host selects with `DataReportingMode`.
#[derive(Debug, Clone, Copy, PartialEq, Eq, Structural)]
pub enum ReportMode {
    /// Core buttons only.
    Core,
    /// Core + 3-byte accelerometer.
    CoreAccel,
    /// Core + 8-byte extension.
    CoreExt8,
    /// Core + accel + 12-byte IR.
    CoreAccelIrExt,
    /// Core + 19-byte extension.
    CoreExt19,
    /// Core + accel + 16-byte extension.
    CoreAccelExt16,
    /// Core + accel + 10-byte basic IR + 6-byte extension.
    CoreAccelIrBasicExt,
    /// Core + accel + 12-byte IR + 6-byte extension.
    CoreAccelIrFullExt,
}

pub open spec fn report_mode_of(mode: u8) -> Option<ReportMode> {
    if mode == 0x30 {
        Some(ReportMode::Core)
    } else if mode == 0x31 {
        Some(ReportMode::CoreAccel)
    } else if mode == 0x32 {
        Some(ReportMode::CoreExt8)
    } else if mode == 0x33 {
        Some(ReportMode::CoreAccelIrExt)
    } else if mode == 0x34 {
        Some(ReportMode::CoreExt19)
    } else if mode == 0x35 {
        Some(ReportMode::CoreAccelExt16)
    } else if mode == 0x36 {
        Some(ReportMode::CoreAccelIrBasicExt)
    } else if mode == 0x37 {
        Some(ReportMode::CoreAccelIrFullExt)
    } else {
        None
    }
}

/// Report id byte of a reporting mode.
pub open spec fn report_mode_byte(mode: ReportMode) -> u8 {
    match mode {
        ReportMode::Core => 0x30,
        ReportMode::CoreAccel => 0x31,
        ReportMode::CoreExt8 => 0x32,
        ReportMode::CoreAccelIrExt => 0x33,
        ReportMode::CoreExt19 => 0x34,
        ReportMode::CoreAccelExt16 => 0x35,
        ReportMode::CoreAccelIrBasicExt => 0x36,
        ReportMode::CoreAccelIrFullExt => 0x37,
    }
}

impl ReportMode {
    pub fn from_u8(mode: u8) -> (r: Option<Self>)
        ensures
            r == report_mode_of(mode),
    {
        match mode {
            0x30 => Some(Self::Core),
            0x31 => Some(Self::CoreAccel),
            0x32 => Some(Self::CoreExt8),
            0x33 => Some(Self::CoreAccelIrExt),
            0x34 => Some(Self::CoreExt19),
            0x35 => Some(Self::CoreAccelExt16),
            0x36 => Some(Self::CoreAccelIrBasicExt),
            0x37 => Some(Self::CoreAccelIrFullExt),
            _ => None,
        }
    }

    pub fn to_u8(&self) -> (r: u8)
        ensures
            r == report_mode_byte(*self),
    {
        match self {
            Self::Core => 0x30,
            Self::CoreAccel => 0x31,
            Self::CoreExt8 => 0x32,
            Self::CoreAccelIrExt => 0x33,
            Self::CoreExt19 => 0x34,
            Self::CoreAccelExt16 => 0x35,
            Self::CoreAccelIrBasicExt => 0x36,
            Self::CoreAccelIrFullExt => 0x37,
        }
    }
}

/// Factory EEPROM image: IR calibration (twice) and accelerometer
/// calibration (twice).
pub open spec fn eeprom_calibration_spec() -> Seq<u8> {
    seq![
        0x7Fu8, 0x5D, 0x03, 0x80, 0x5D, 0x80, 0xA2, 0xB8, 0x7F, 0xA2, 0x0C,
        0x7F, 0x5D, 0x03, 0x80, 0x5D, 0x80, 0xA2, 0xB8, 0x7F, 0xA2, 0x0C,
        0x80, 0x80, 0x80, 0x00, 0x9A, 0x9A, 0x9A, 0x00, 0x00, 0xA3,
        0x80, 0x80, 0x80, 0x00, 0x9A, 0x9A, 0x9A, 0x00, 0x00, 0xA3,
    ]
}

/// Identification bytes of an attached nunchuk.
pub open spec fn nunchuk_id_spec() -> Seq<u8> {
    seq![0x00u8, 0x00, 0xA4, 0x20, 0x00, 0x00]
}

/// Nunchuk calibration block before its checksum is filled in.
pub open spec fn nunchuk_calibration_base() -> Seq<u8> {
    seq![
        0x80u8, 0x80, 0x80, 0x00, 0xB3, 0xB3, 0xB3, 0x00, 0xFF, 0x00, 0x80, 0xFF, 0x00, 0x80,
        0x00, 0x00,
    ]
}

/// The factory EEPROM calibration bytes.
pub fn eeprom_calibration() -> (r: Vec<u8>)
    ensures
        r@ == eeprom_calibration_spec(),
{
    let v = vec![
        0x7Fu8, 0x5D, 0x03, 0x80, 0x5D, 0x80, 0xA2, 0xB8, 0x7F, 0xA2, 0x0C,
        0x7F, 0x5D, 0x03, 0x80, 0x5D, 0x80, 0xA2, 0xB8, 0x7F, 0xA2, 0x0C,
        0x80, 0x80, 0x80, 0x00, 0x9A, 0x9A, 0x9A, 0x00, 0x00, 0xA3,
        0x80, 0x80, 0x80, 0x00, 0x9A, 0x9A, 0x9A, 0x00, 0x00, 0xA3,
    ];
    assert(v@ =~= eeprom_calibration_spec());
    v
}

/// Sum of `data` modulo 256.
pub open spec fn byte_sum(data: Seq<u8>) -> u8
    decreases data.len(),
{
    if data.len() == 0 {
        0
    } else {
        byte_sum(data.drop_last()).wrapping_add(data.last())
    }
}

/// Calibration checksum: byte sum plus 0x55, and byte sum plus 0xAA.
pub fn compute_calibration_checksum(data: &[u8]) -> (r: (u8, u8))
    ensures
        r == (byte_sum(data@).wrapping_add(0x55), byte_sum(data@).wrapping_add(0xAA)),
{
    let mut sum: u8 = 0;
    let mut i: usize = 0;
    while i < data.len()
        invariant
            i <= data@.len(),
            sum == byte_sum(data@.take(i as int)),
        decreases data@.len() - i,
    {
        assert(data@.take(i + 1).drop_last() =~= data@.take(i as int));
        sum = sum.wrapping_add(data[i]);
        i += 1;
    }
    assert(data@.take(data@.len() as int) =~= data@);
    (sum.wrapping_add(0x55), sum.wrapping_add(0xAA))
}

/// Nunchuk calibration block with its checksum in the last two bytes.
pub open spec fn nunchuk_calibration_spec() -> Seq<u8> {
    let base = nunchuk_calibration_base();
    let sum = byte_sum(base.take(14));
    base.update(14, sum.wrapping_add(0x55)).update(15, sum.wrapping_add(0xAA))
}

/// 24-bit big-endian memory address in bytes 1..4 of a request body.
pub open spec fn decode_mem_address_spec(body: Seq<u8>) -> u32 {
    (body[1] * 0x10000 + body[2] * 0x100 + body[3]) as u32
}

pub fn decode_mem_address(body: &[u8]) -> (r: u32)
    requires
        body@.len() >= 4,
    ensures
        r == decode_mem_address_spec(body@),
        r < 0x100_0000,
{
    let (a, b, c) = (body[1] as u32, body[2] as u32, body[3] as u32);
    assert(((a << 16) | (b << 8) | c) == a * 0x10000 + b * 0x100 + c) by (bit_vector)
        requires
            a < 256,
            b < 256,
            c < 256,
    ;
    (a << 16) | (b << 8) | c
}

/// The two button bytes, most significant first.
pub open spec fn button_bytes_of(buttons: u16) -> Seq<u8> {
    seq![(buttons / 256) as u8, (buttons % 256) as u8]
}

/// Contents of a list of reports.
pub open spec fn reports_view(r: Vec<Vec<u8>>) -> Seq<Seq<u8>> {
    r@.map_values(|v: Vec<u8>| v@)
}

/// Acknowledgement (report 0x22) of output report `report_id`.
pub open spec fn trivial_ack_spec(bb: Seq<u8>, report_id: u8) -> Seq<Seq<u8>> {
    seq![seq![HID_PREFIX_INPUT, 0x22u8, bb[0], bb[1], report_id, 0x00u8]]
}

pub fn trivial_ack(button_bytes: [u8; 2], report_id: u8) -> (r: Vec<Vec<u8>>)
    ensures
        reports_view(r) == trivial_ack_spec(button_bytes@, report_id),
{
    let inner = vec![HID_PREFIX_INPUT, 0x22u8, button_bytes[0], button_bytes[1], report_id, 0x00u8];
    assert(inner@ =~= trivial_ack_spec(button_bytes@, report_id)[0]);
    let r = vec![inner];
    assert(reports_view(r) =~= trivial_ack_spec(button_bytes@, report_id));
    r
}

/// Abstract state of an emulated Wii Remote with a nunchuk port.
pub struct WiimoteView {
    pub buttons: u16,
    pub report_mode: ReportMode,
    pub continuous: bool,
    pub leds: u8,
    pub ir_enabled_pin1: bool,
    pub ir_enabled_pin2: bool,
    pub eeprom: Seq<u8>,
    pub nunchuk_attached: bool,
    pub nunchuk_buttons: u8,
    pub nunchuk_stick_x: u8,
    pub nunchuk_stick_y: u8,
    pub nunchuk_calibration: Seq<u8>,
}

#[derive(Debug)]
pub struct WiimoteState {
    buttons: u16,
    report_mode: ReportMode,
    continuous: bool,
    leds: u8,
    ir_enabled_pin1: bool,
    ir_enabled_pin2: bool,
    eeprom: Vec<u8>,
    nunchuk_attached: bool,
    nunchuk_buttons: u8,
    nunchuk_stick_x: u8,
    nunchuk_stick_y: u8,
    nunchuk_calibration: [u8; 16],
}

impl View for WiimoteState {
    type V = WiimoteView;

    closed spec fn view(&self) -> WiimoteView {
        WiimoteView {
            buttons: self.buttons,
            report_mode: self.report_mode,
            continuous: self.continuous,
            leds: self.leds,
            ir_enabled_pin1: self.ir_enabled_pin1,
            ir_enabled_pin2: self.ir_enabled_pin2,
            eeprom: self.eeprom@,
            nunchuk_attached: self.nunchuk_attached,
            nunchuk_buttons: self.nunchuk_buttons,
            nunchuk_stick_x: self.nunchuk_stick_x,
            nunchuk_stick_y: self.nunchuk_stick_y,
            nunchuk_calibration: self.nunchuk_calibration@,
        }
    }
}

impl WiimoteView {
    pub open spec fn wf(self) -> bool {
        &&& self.eeprom.len() == WIIMOTE_EEPROM_SIZE
        &&& self.nunchuk_calibration.len() == 16
        &&& self.leds < 16
    }

    /// The state a freshly connected remote starts in.
    pub open spec fn initial() -> WiimoteView {
        WiimoteView {
            buttons: 0,
            report_mode: ReportMode::Core,
            continuous: false,
            leds: 0,
            ir_enabled_pin1: false,
            ir_enabled_pin2: false,
            eeprom: eeprom_calibration_spec() + Seq::new(
                (WIIMOTE_EEPROM_SIZE - 42) as nat,
                |i: int| 0u8,
            ),
            nunchuk_attached: true,
            nunchuk_buttons: 0,
            nunchuk_stick_x: 0x80,
            nunchuk_stick_y: 0x80,
            nunchuk_calibration: nunchuk_calibration_spec(),
        }
    }

    pub open spec fn button_bytes(self) -> Seq<u8> {
        button_bytes_of(self.buttons)
    }

    /// Extension bytes of the nunchuk: stick, accelerometer, inverted
    /// buttons; all 0xFF when nothing is attached.
    pub open spec fn nunchuk_extension(self) -> Seq<u8> {
        if !self.nunchuk_attached {
            Seq::new(6, |i: int| 0xFFu8)
        } else {
            seq![
                self.nunchuk_stick_x,
                self.nunchuk_stick_y,
                0x80u8,
                0x80u8,
                0xB3u8,
                (!self.nunchuk_buttons) & 0x03u8,
            ]
        }
    }

    /// Nunchuk extension padded with 0xFF to `total_len` bytes.
    pub open spec fn nunchuk_ext_padded(self, total_len: nat) -> Seq<u8> {
        self.nunchuk_extension() + Seq::new((total_len - 6) as nat, |i: int| 0xFFu8)
    }

    /// The input report sent in the current reporting mode.
    pub open spec fn input_report(self) -> Seq<u8> {
        let accel = seq![0x80u8, 0x80u8, 0xB3u8];
        let ir_basic = Seq::new(10, |i: int| 0xFFu8);
        let ir_extended = Seq::new(12, |i: int| 0xFFu8);
        let head = seq![HID_PREFIX_INPUT, report_mode_byte(self.report_mode)] + self.button_bytes();
        head + match self.report_mode {
            ReportMode::Core => Seq::empty(),
            ReportMode::CoreAccel => accel,
            ReportMode::CoreExt8 => self.nunchuk_ext_padded(8),
            ReportMode::CoreAccelIrExt => accel + ir_extended,
            ReportMode::CoreExt19 => self.nunchuk_ext_padded(19),
            ReportMode::CoreAccelExt16 => accel + self.nunchuk_ext_padded(16),
            ReportMode::CoreAccelIrBasicExt => accel + ir_basic + self.nunchuk_extension(),
            ReportMode::CoreAccelIrFullExt => accel + ir_extended + self.nunchuk_extension(),
        }
    }

    /// Status report (0x20): LEDs, IR and extension flags, battery level.
    pub open spec fn status_report(self) -> Seq<u8> {
        let bb = self.button_bytes();
        let flags = self.leds * 16 + (if self.ir_enabled_pin1 && self.ir_enabled_pin2 {
            8int
        } else {
            0
        }) + (if self.nunchuk_attached {
            2int
        } else {
            0
        });
        seq![HID_PREFIX_INPUT, 0x20u8, bb[0], bb[1], flags as u8, 0x00u8, 0x00u8, 0x64u8]
    }

    /// Read-data report (0x21) carrying up to 16 bytes of `data` for
    /// `address`, zero padded, with size and error nibbles.
    pub open spec fn chunk_report(self, address: u16, data: Seq<u8>, error: u8) -> Seq<u8> {
        let bb = self.button_bytes();
        let chunk_len = if data.len() < 16 {
            data.len()
        } else {
            16
        };
        let size_and_error: u8 = if chunk_len == 0 {
            error % 16
        } else {
            (((chunk_len - 1) % 16) * 16 + error % 16) as u8
        };
        seq![
            HID_PREFIX_INPUT,
            0x21u8,
            bb[0],
            bb[1],
            size_and_error,
            (address / 256) as u8,
            (address % 256) as u8,
        ] + data.take(chunk_len as int) + Seq::new((16 - chunk_len) as nat, |i: int| 0u8)
    }

    /// EEPROM read replies for bytes `offset..size` of a read at `address`.
    pub open spec fn eeprom_chunks(self, address: u32, size: int, offset: int) -> Seq<Seq<u8>>
        decreases size - offset,
    {
        if offset >= size || offset < 0 {
            Seq::empty()
        } else {
            let chunk = if size - offset < 16 {
                size - offset
            } else {
                16
            };
            let start = address + offset;
            seq![
                self.chunk_report(
                    ((address + offset) % 0x10000) as u16,
                    self.eeprom.subrange(start, start + chunk),
                    0,
                ),
            ] + self.eeprom_chunks(address, size, offset + chunk)
        }
    }

    /// Extension register space: calibration at 0x20 and identification at
    /// 0xFA, zero elsewhere.
    pub open spec fn register_backing(self) -> Seq<u8> {
        Seq::new(0x20, |i: int| 0u8) + self.nunchuk_calibration + Seq::new(0xCA, |i: int| 0u8)
            + nunchuk_id_spec()
    }

    /// Register read replies for bytes `offset..size` starting at `base`;
    /// a chunk running past the register space ends the reply with an error.
    pub open spec fn register_chunks(self, address: u32, base: int, size: int, offset: int) -> Seq<
        Seq<u8>,
    >
        decreases size - offset,
    {
        if offset >= size || offset < 0 {
            Seq::empty()
        } else {
            let chunk = if size - offset < 16 {
                size - offset
            } else {
                16
            };
            let start = base + offset;
            let addr = ((address % 0x10000 + offset) % 0x10000) as u16;
            if start + chunk > 0x100 {
                seq![self.chunk_report(addr, Seq::empty(), 0x08)]
            } else {
                seq![self.chunk_report(addr, self.register_backing().subrange(start, start + chunk), 0)]
                    + self.register_chunks(address, base, size, offset + chunk)
            }
        }
    }

    /// Replies to a read request.
    pub open spec fn read_memory(self, address_space: u8, address: u32, size: int) -> Seq<Seq<u8>> {
        if address_space != 0 {
            self.register_response(address, size)
        } else if address + size > self.eeprom.len() {
            seq![self.chunk_report((address % 0x10000) as u16, Seq::empty(), 0x08)]
        } else {
            self.eeprom_chunks(address, size, 0)
        }
    }

    /// EEPROM after a write request body (space 0 only; at most 16 bytes,
    /// clipped at the end of the EEPROM).
    pub open spec fn write_memory(self, body: Seq<u8>) -> WiimoteView {
        let address = decode_mem_address_spec(body) as int;
        let size = body[4] as int;
        if body[0] & 0x06 == 0 {
            let avail = body.len() - 5;
            let n1 = if size < avail {
                size
            } else {
                avail
            };
            let n = if n1 < 16 {
                n1
            } else {
                16
            };
            let end = if address + n < self.eeprom.len() {
                address + n
            } else {
                self.eeprom.len() as int
            };
            WiimoteView {
                eeprom: self.eeprom.take(address) + body.subrange(5, 5 + end - address)
                    + self.eeprom.skip(end),
                ..self
            }
        } else {
            self
        }
    }

    /// State and replies after the host sends output report `packet`.
    pub open spec fn output_report(self, packet: Seq<u8>) -> (WiimoteView, Seq<Seq<u8>>) {
        if packet.len() < 2 || packet[0] != HID_PREFIX_OUTPUT {
            (self, Seq::empty())
        } else {
            let raw_id = packet[1];
            let body = packet.skip(2);
            let ack = trivial_ack_spec(self.button_bytes(), raw_id);
            match output_report_id_of(raw_id) {
                None => (self, Seq::empty()),
                Some(id) => match id {
                    OutputReportId::Rumble | OutputReportId::SpeakerEnable
                    | OutputReportId::SpeakerData | OutputReportId::SpeakerMute => (self, ack),
                    OutputReportId::PlayerLeds => (
                        WiimoteView {
                            leds: if body.len() > 0 {
                                body[0] / 16
                            } else {
                                0
                            },
                            ..self
                        },
                        ack,
                    ),
                    OutputReportId::DataReportingMode => if body.len() >= 2 {
                        let s1 = WiimoteView { continuous: body[0] & 0x04 != 0, ..self };
                        match report_mode_of(body[1]) {
                            None => (s1, ack),
                            Some(mode) => (WiimoteView { report_mode: mode, ..s1 }, ack),
                        }
                    } else {
                        (self, Seq::empty())
                    },
                    OutputReportId::IrCameraEnable => (
                        WiimoteView {
                            ir_enabled_pin1: body.len() > 0 && body[0] & 0x04 != 0,
                            ..self
                        },
                        ack,
                    ),
                    OutputReportId::StatusInformationRequest => (self, seq![self.status_report()]),
                    OutputReportId::WriteMemoryAndRegisters => if body.len() >= 5 {
                        (self.write_memory(body), ack)
                    } else {
                        (self, Seq::empty())
                    },
                    OutputReportId::ReadMemoryAndRegisters => if body.len() >= 6 {
                        (
                            self,
                            self.read_memory(
                                body[0] & 0x06,
                                decode_mem_address_spec(body),
                                body[4] * 256 + body[5],
                            ),
                        )
                    } else {
                        (self, Seq::empty())
                    },
                    OutputReportId::IrCameraEnable2 => (
                        WiimoteView {
                            ir_enabled_pin2: body.len() > 0 && body[0] & 0x04 != 0,
                            ..self
                        },
                        ack,
                    ),
                },
            }
        }
    }
}

/// A memory write whose start address lies past the end of the EEPROM
/// (the slice it would write is empty-and-inverted, which aborts).
pub open spec fn output_write_out_of_range(packet: Seq<u8>) -> bool {
    &&& packet.len() >= 7
    &&& packet[0] == HID_PREFIX_OUTPUT
    &&& packet[1] == 0x16
    &&& packet[2] & 0x06 == 0
    &&& decode_mem_address_spec(packet.skip(2)) > WIIMOTE_EEPROM_SIZE
}


/// Appends `data` to `out`.
fn push_bytes(out: &mut Vec<u8>, data: &[u8])
    ensures
        final(out)@ == old(out)@ + data@,
{
    let mut i: usize = 0;
    while i < data.len()
        invariant
            i <= data@.len(),
            out@ == old(out)@ + data@.take(i as int),
        decreases data@.len() - i,
    {
        out.push(data[i]);
        i += 1;
        assert(out@ =~= old(out)@ + data@.take(i as int));
    }
    assert(data@.take(data@.len() as int) =~= data@);
}

/// Appends `n` copies of `byte` to `out`.
fn push_fill(out: &mut Vec<u8>, byte: u8, n: usize)
    ensures
        final(out)@ == old(out)@ + Seq::new(n as nat, |i: int| byte),
{
    let mut i: usize = 0;
    while i < n
        invariant
            i <= n,
            out@ == old(out)@ + Seq::new(i as nat, |k: int| byte),
        decreases n - i,
    {
        out.push(byte);
        i += 1;
        assert(out@ =~= old(out)@ + Seq::new(i as nat, |k: int| byte));
    }
}

fn min_usize(a: usize, b: usize) -> (r: usize)
    ensures
        r == if a < b {
            a
        } else {
            b
        },
{
    if a < b {
        a
    } else {
        b
    }
}

impl Default for WiimoteState {
    fn default() -> (r: Self)
        ensures
            r@ == WiimoteView::initial(),
            r@.wf(),
    {
        let mut eeprom = vec![0u8; WIIMOTE_EEPROM_SIZE];
        let cal = eeprom_calibration();
        let mut i: usize = 0;
        while i < cal.len()
            invariant
                eeprom@.len() == WIIMOTE_EEPROM_SIZE,
                cal@ == eeprom_calibration_spec(),
                i <= cal@.len(),
                forall|j: int| 0 <= j < i ==> eeprom@[j] == cal@[j],
                forall|j: int| i <= j < WIIMOTE_EEPROM_SIZE ==> eeprom@[j] == 0,
            decreases cal@.len() - i,
        {
            eeprom.set(i, cal[i]);
            i += 1;
        }
        assert(eeprom@ =~= WiimoteView::initial().eeprom);
        let mut nunchuk_calibration: [u8; 16] = [
            0x80, 0x80, 0x80, 0x00, 0xB3, 0xB3, 0xB3, 0x00, 0xFF, 0x00, 0x80, 0xFF, 0x00, 0x80, 0x00,
            0x00,
        ];
        assert(nunchuk_calibration@ =~= nunchuk_calibration_base());
        let (a, b) = compute_calibration_checksum(
            vstd::slice::slice_subrange(nunchuk_calibration.as_slice(), 0, 14),
        );
        nunchuk_calibration[14] = a;
        nunchuk_calibration[15] = b;
        assert(nunchuk_calibration@ =~= nunchuk_calibration_spec());
        Self {
            buttons: 0,
            report_mode: ReportMode::Core,
            continuous: false,
            leds: 0,
            ir_enabled_pin1: false,
            ir_enabled_pin2: false,
            eeprom,
            nunchuk_attached: true,
            nunchuk_buttons: 0,
            nunchuk_stick_x: 0x80,
            nunchuk_stick_y: 0x80,
            nunchuk_calibration,
        }
    }
}

impl WiimoteState {
    /// Whether continuous reporting was requested.
    pub fn continuous(&self) -> (r: bool)
        ensures
            r == self@.continuous,
    {
        self.continuous
    }

    /// The current data reporting mode.
    pub fn report_mode(&self) -> (r: ReportMode)
        ensures
            r == self@.report_mode,
    {
        self.report_mode
    }

    /// Records the pressed core buttons; reports whether they changed.
    pub fn set_buttons(&mut self, buttons: u16) -> (changed: bool)
        ensures
            final(self)@ == (WiimoteView { buttons, ..old(self)@ }),
            changed == (buttons != old(self)@.buttons),
    {
        let old = self.buttons;
        self.buttons = buttons;
        self.buttons != old
    }

    /// Records the nunchuk's buttons and stick; reports whether any changed.
    pub fn set_nunchuk(&mut self, buttons: u8, stick_x: u8, stick_y: u8) -> (changed: bool)
        ensures
            final(self)@ == (WiimoteView {
                nunchuk_buttons: buttons,
                nunchuk_stick_x: stick_x,
                nunchuk_stick_y: stick_y,
                ..old(self)@
            }),
            changed == (old(self)@.nunchuk_buttons != buttons || old(self)@.nunchuk_stick_x
                != stick_x || old(self)@.nunchuk_stick_y != stick_y),
    {
        let changed = self.nunchuk_buttons != buttons || self.nunchuk_stick_x != stick_x
            || self.nunchuk_stick_y != stick_y;
        self.nunchuk_buttons = buttons;
        self.nunchuk_stick_x = stick_x;
        self.nunchuk_stick_y = stick_y;
        changed
    }

    fn button_bytes(&self) -> (r: [u8; 2])
        ensures
            r@ == self@.button_bytes(),
    {
        let b = self.buttons;
        let r = [(b >> 8) as u8, b as u8];
        proof {
            crate::bits::lemma_u16_bytes(b);
        }
        assert(r@ =~= self@.button_bytes());
        r
    }

    /// The input report for the current reporting mode.
    pub fn make_input_report(&self) -> (r: Vec<u8>)
        ensures
            r@ == self@.input_report(),
    {
        let bb = self.button_bytes();
        let accel = [0x80u8, 0x80, 0xB3];
        let mode = self.report_mode;
        let mut r = vec![HID_PREFIX_INPUT, mode.to_u8(), bb[0], bb[1]];
        let ghost head = r@;
        assert(accel@ =~= seq![0x80u8, 0x80u8, 0xB3u8]);
        match mode {
            ReportMode::Core => {},
            ReportMode::CoreAccel => push_bytes(&mut r, accel.as_slice()),
            ReportMode::CoreExt8 => self.append_nunchuk_ext_padded(&mut r, 8),
            ReportMode::CoreAccelIrExt => {
                push_bytes(&mut r, accel.as_slice());
                push_fill(&mut r, 0xFF, 12);
            },
            ReportMode::CoreExt19 => self.append_nunchuk_ext_padded(&mut r, 19),
            ReportMode::CoreAccelExt16 => {
                push_bytes(&mut r, accel.as_slice());
                self.append_nunchuk_ext_padded(&mut r, 16);
            },
            ReportMode::CoreAccelIrBasicExt => {
                push_bytes(&mut r, accel.as_slice());
                push_fill(&mut r, 0xFF, 10);
                let ext = self.nunchuk_extension_bytes();
                push_bytes(&mut r, ext.as_slice());
            },
            ReportMode::CoreAccelIrFullExt => {
                push_bytes(&mut r, accel.as_slice());
                push_fill(&mut r, 0xFF, 12);
                let ext = self.nunchuk_extension_bytes();
                push_bytes(&mut r, ext.as_slice());
            },
        }
        assert(r@ =~= self@.input_report());
        r
    }

    /// Six extension bytes describing the nunchuk (0xFF when detached).
    fn nunchuk_extension_bytes(&self) -> (r: [u8; 6])
        ensures
            r@ == self@.nunchuk_extension(),
    {
        if !self.nunchuk_attached {
            let r = [0xFFu8; 6];
            assert(r@ =~= self@.nunchuk_extension());
            return r;
        }
        let inv_buttons = (!self.nunchuk_buttons) & 0x03;
        let r = [self.nunchuk_stick_x, self.nunchuk_stick_y, 0x80, 0x80, 0xB3, inv_buttons];
        assert(r@ =~= self@.nunchuk_extension());
        r
    }

    /// Appends the nunchuk extension padded with 0xFF to `total_len` bytes.
    fn append_nunchuk_ext_padded(&self, out: &mut Vec<u8>, total_len: usize)
        requires
            total_len >= 6,
            old(out)@.len() + total_len <= usize::MAX,
        ensures
            final(out)@ == old(out)@ + self@.nunchuk_ext_padded(total_len as nat),
    {
        let ext = self.nunchuk_extension_bytes();
        push_bytes(out, ext.as_slice());
        push_fill(out, 0xFF, total_len - 6);
        assert(out@ =~= old(out)@ + self@.nunchuk_ext_padded(total_len as nat));
    }

    /// Read-data report (0x21) for `address` carrying up to 16 bytes of `data`.
    fn read_chunk_report(&self, address: u16, data: &[u8], error: u8) -> (r: Vec<u8>)
        ensures
            r@ == self@.chunk_report(address, data@, error),
    {
        let bb = self.button_bytes();
        let chunk_len = min_usize(data.len(), 16);
        let size_and_error = if chunk_len == 0 {
            error & 0x0F
        } else {
            let c = (chunk_len - 1) as u8;
            assert((((c & 0x0F) << 4u8) | (error & 0x0F)) == ((c % 16) * 16 + error % 16) as u8
                && error & 0x0F == error % 16) by (bit_vector)
                requires
                    c < 16,
            ;
            ((c & 0x0F) << 4u8) | (error & 0x0F)
        };
        proof {
            crate::bits::lemma_and_low_nibble(error);
        }
        let mut report = Vec::with_capacity(23);
        report.push(HID_PREFIX_INPUT);
        report.push(0x21);
        report.push(bb[0]);
        report.push(bb[1]);
        report.push(size_and_error);
        proof {
            crate::bits::lemma_u16_bytes(address);
        }
        report.push((address >> 8) as u8);
        report.push(address as u8);
        push_bytes(&mut report, vstd::slice::slice_subrange(data, 0, chunk_len));
        push_fill(&mut report, 0, 16 - chunk_len);
        assert(report@ =~= self@.chunk_report(address, data@, error));
        report
    }

    /// Status report (0x20).
    fn make_status_report(&self) -> (r: Vec<u8>)
        requires
            self@.wf(),
        ensures
            r@ == self@.status_report(),
    {
        let bb = self.button_bytes();
        let ir_enabled = self.ir_enabled_pin1 && self.ir_enabled_pin2;
        let mut flags: u8 = self.leds * 16;
        if ir_enabled {
            flags += 0x08;
        }
        if self.nunchuk_attached {
            flags += 0x02;
        }
        let r = vec![HID_PREFIX_INPUT, 0x20, bb[0], bb[1], flags, 0x00, 0x00, 0x64];
        assert(r@ =~= self@.status_report());
        r
    }
}


impl WiimoteView {
    /// Replies to a read of the extension register space.
    pub open spec fn register_response(self, address: u32, size: int) -> Seq<Seq<u8>> {
        if !self.nunchuk_attached {
            seq![self.chunk_report((address % 0x10000) as u16, Seq::empty(), 0x07)]
        } else {
            self.register_chunks(address, (address % 0x100) as int, size, 0)
        }
    }
}

impl WiimoteState {
    fn read_memory_response(&self, address_space: u8, address: u32, size: usize) -> (r: Vec<
        Vec<u8>,
    >)
        requires
            self@.wf(),
            address < 0x100_0000,
            size < 0x10000,
        ensures
            reports_view(r) == self@.read_memory(address_space, address, size as int),
    {
        if address_space != 0 {
            return self.read_register_response(address, size);
        }
        let start = address as usize;
        let end = start + size;
        if end > self.eeprom.len() {
            proof {
                crate::bits::lemma_u32_low(address);
            }
            let r = vec![self.read_chunk_report(address as u16, &[], 0x08)];
            assert(reports_view(r) =~= self@.read_memory(address_space, address, size as int));
            return r;
        }
        let mut out: Vec<Vec<u8>> = Vec::new();
        let mut offset: usize = 0;
        while offset < size
            invariant
                self@.wf(),
                start == address,
                start + size <= WIIMOTE_EEPROM_SIZE,
                offset <= size,
                reports_view(out) + self@.eeprom_chunks(address, size as int, offset as int)
                    == self@.eeprom_chunks(address, size as int, 0),
            decreases size - offset,
        {
            let chunk = min_usize(size - offset, 16);
            let chunk_addr = (address as u16) + (offset as u16);
            let data = vstd::slice::slice_subrange(
                self.eeprom.as_slice(),
                start + offset,
                start + offset + chunk,
            );
            let report = self.read_chunk_report(chunk_addr, data, 0);
            let ghost before = reports_view(out);
            out.push(report);
            assert(reports_view(out) =~= before.push(report@));
            assert(((address + offset) % 0x10000) as u16 == chunk_addr);
            assert(self@.eeprom_chunks(address, size as int, offset as int) =~= seq![report@]
                + self@.eeprom_chunks(address, size as int, (offset + chunk) as int));
            offset += chunk;
        }
        assert(self@.eeprom_chunks(address, size as int, offset as int) =~= Seq::<Seq<u8>>::empty());
        assert(reports_view(out) =~= self@.eeprom_chunks(address, size as int, 0));
        out
    }

    #[verifier::rlimit(50)]
    fn read_register_response(&self, address: u32, size: usize) -> (r: Vec<Vec<u8>>)
        requires
            self@.wf(),
            size < 0x10000,
        ensures
            reports_view(r) == self@.register_response(address, size as int),
    {
        let canonical = address & 0x00FF_FFFF;
        if !self.nunchuk_attached {
            let r = vec![self.read_chunk_report(address as u16, &[], 0x07)];
            proof {
                crate::bits::lemma_u32_low(address);
            }
            assert(reports_view(r) =~= self@.register_response(address, size as int));
            return r;
        }
        let mut backing = vec![0u8; 0x100];
        let mut k: usize = 0;
        while k < 16
            invariant
                backing@.len() == 0x100,
                self@.wf(),
                k <= 16,
                forall|j: int| 0 <= j < 0x20 ==> backing@[j] == 0,
                forall|j: int| 0x20 <= j < 0x20 + k ==> backing@[j] == self@.nunchuk_calibration[j - 0x20],
                forall|j: int| 0x20 + k <= j < 0x100 ==> backing@[j] == 0,
            decreases 16 - k,
        {
            backing.set(0x20 + k, self.nunchuk_calibration[k]);
            k += 1;
        }
        let id = [0x00u8, 0x00, 0xA4, 0x20, 0x00, 0x00];
        assert(id@ =~= nunchuk_id_spec());
        let mut k: usize = 0;
        while k < 6
            invariant
                backing@.len() == 0x100,
                self@.wf(),
                id@ == nunchuk_id_spec(),
                k <= 6,
                forall|j: int| 0 <= j < 0x20 ==> backing@[j] == 0,
                forall|j: int| 0x20 <= j < 0x30 ==> backing@[j] == self@.nunchuk_calibration[j - 0x20],
                forall|j: int| 0x30 <= j < 0xFA ==> backing@[j] == 0,
                forall|j: int| 0xFA <= j < 0xFA + k ==> backing@[j] == id@[j - 0xFA],
                forall|j: int| 0xFA + k <= j < 0x100 ==> backing@[j] == 0,
            decreases 6 - k,
        {
            backing.set(0xFA + k, id[k]);
            k += 1;
        }
        assert(backing@ =~= self@.register_backing());
        proof {
            crate::bits::lemma_u32_low(address);
        }
        let base = (canonical & 0xFF) as usize;
        let mut out: Vec<Vec<u8>> = Vec::new();
        let mut offset: usize = 0;
        let addr16 = address as u16;

        while offset < size
            invariant
                self@.wf(),
                self@.nunchuk_attached,
                backing@ == self@.register_backing(),
                base == address % 0x100,
                base < 0x100,
                addr16 == address % 0x10000,
                size < 0x10000,
                offset <= size,
                reports_view(out) + self@.register_chunks(address, base as int, size as int, offset as int)
                    == self@.register_chunks(address, base as int, size as int, 0),
            decreases size - offset,
        {
            let chunk = min_usize(size - offset, 16);
            let start = base + offset;
            let end = start + chunk;
            let chunk_addr = addr16.wrapping_add(offset as u16);
            assert(chunk_addr == ((address % 0x10000 + offset) % 0x10000) as u16);
            let ghost before = reports_view(out);
            if end > backing.len() {
                let report = self.read_chunk_report(chunk_addr, &[], 0x08);
                out.push(report);
                assert(reports_view(out) =~= before.push(report@));
                assert(self@.register_chunks(address, base as int, size as int, offset as int)
                    =~= seq![report@]);
                assert(reports_view(out) =~= self@.register_chunks(address, base as int, size as int, 0));
                return out;
            }
            let data = vstd::slice::slice_subrange(backing.as_slice(), start, end);
            let report = self.read_chunk_report(chunk_addr, data, 0);
            out.push(report);
            assert(reports_view(out) =~= before.push(report@));
            assert(self@.register_chunks(address, base as int, size as int, offset as int) =~= seq![
                report@,
            ] + self@.register_chunks(address, base as int, size as int, (offset + chunk) as int));
            offset += chunk;
        }
        assert(self@.register_chunks(address, base as int, size as int, offset as int) =~= Seq::<
            Seq<u8>,
        >::empty());
        assert(reports_view(out) =~= self@.register_chunks(address, base as int, size as int, 0));
        out
    }
}


impl WiimoteState {
    /// Copies a memory-write payload into the EEPROM (address space 0 only).
    fn write_memory(&mut self, body: &[u8])
        requires
            old(self)@.wf(),
            body@.len() >= 5,
            body@[0] & 0x06 == 0 ==> decode_mem_address_spec(body@) <= WIIMOTE_EEPROM_SIZE,
        ensures
            final(self)@ == old(self)@.write_memory(body@),
            final(self)@.wf(),
    {
        let address = decode_mem_address(body);
        let address_space = body[0] & 0x06;
        let size = body[4] as usize;
        if address_space == 0 {
            assert(address <= WIIMOTE_EEPROM_SIZE);
            let n = min_usize(min_usize(size, body.len() - 5), 16);
            let payload = vstd::slice::slice_subrange(body, 5, 5 + n);
            let end = min_usize(address as usize + payload.len(), self.eeprom.len());
            let start = address as usize;
            let mut i: usize = 0;
            let ghost e0 = self.eeprom@;
            assert(old(self)@.eeprom.take(start as int) + payload@.take(0) + old(self)@.eeprom.skip(
                start as int,
            ) =~= old(self)@.eeprom);
            while start + i < end
                invariant
                    start <= end <= WIIMOTE_EEPROM_SIZE,
                    start + i <= end,
                    self.eeprom@.len() == WIIMOTE_EEPROM_SIZE,
                    end - start <= payload@.len(),
                    payload@ == body@.subrange(5, 5 + n as int),
                    self@ == (WiimoteView { eeprom: self.eeprom@, ..old(self)@ }),
                    e0 == old(self)@.eeprom,
                    e0.len() == WIIMOTE_EEPROM_SIZE,
                    self.eeprom@ == e0.take(start as int) + payload@.take(i as int) + e0.skip(
                        start + i,
                    ),
                decreases end - (start + i),
            {
                let ghost prev = self.eeprom@;
                self.eeprom.set(start + i, payload[i]);
                assert(self.eeprom@ == prev.update(start + i, payload@[i as int]));
                i += 1;
                assert(self.eeprom@ =~= e0.take(start as int) + payload@.take(i as int) + e0.skip(
                    start + i,
                ));
            }
            assert(self.eeprom@ =~= old(self)@.write_memory(body@).eeprom);
        }
    }

    /// Handles an output report from the host; returns the input reports
    /// sent back.
    pub fn handle_output_report(&mut self, packet: &[u8]) -> (replies: Vec<Vec<u8>>)
        requires
            old(self)@.wf(),
            !output_write_out_of_range(packet@),
        ensures
            final(self)@.wf(),
            (final(self)@, reports_view(replies)) == old(self)@.output_report(packet@),
    {
        if packet.len() < 2 {
            let r = Vec::new();
            assert(reports_view(r) =~= Seq::<Seq<u8>>::empty());
            return r;
        }
        if packet[0] != HID_PREFIX_OUTPUT {
            let r = Vec::new();
            assert(reports_view(r) =~= Seq::<Seq<u8>>::empty());
            return r;
        }
        let raw_id = packet[1];
        let body = vstd::slice::slice_subrange(packet, 2, packet.len());
        let report_id = match OutputReportId::from_u8(raw_id) {
            Some(id) => id,
            None => {
                let r = Vec::new();
                assert(reports_view(r) =~= Seq::<Seq<u8>>::empty());
                return r;
            },
        };
        match report_id {
            OutputReportId::Rumble
            | OutputReportId::SpeakerEnable
            | OutputReportId::SpeakerData
            | OutputReportId::SpeakerMute => trivial_ack(self.button_bytes(), raw_id),
            OutputReportId::PlayerLeds => {
                let first = if body.len() > 0 {
                    body[0]
                } else {
                    0
                };
                self.leds = first >> 4u8;
                proof {
                    crate::bits::lemma_u16_bytes(first as u16);
                    assert(first >> 4u8 == ((first as u16) >> 4u16) as u8) by (bit_vector);
                }
                trivial_ack(self.button_bytes(), raw_id)
            },
            OutputReportId::DataReportingMode => {
                if body.len() < 2 {
                    let r = Vec::new();
                    assert(reports_view(r) =~= Seq::<Seq<u8>>::empty());
                    return r;
                }
                self.continuous = (body[0] & 0x04) != 0;
                match ReportMode::from_u8(body[1]) {
                    Some(mode) => {
                        self.report_mode = mode;
                    },
                    None => {},
                }
                trivial_ack(self.button_bytes(), raw_id)
            },
            OutputReportId::IrCameraEnable => {
                self.ir_enabled_pin1 = body.len() > 0 && (body[0] & 0x04) != 0;
                trivial_ack(self.button_bytes(), raw_id)
            },
            OutputReportId::StatusInformationRequest => {
                let report = self.make_status_report();
                let r = vec![report];
                assert(reports_view(r) =~= seq![self@.status_report()]);
                r
            },
            OutputReportId::WriteMemoryAndRegisters => {
                if body.len() < 5 {
                    let r = Vec::new();
                    assert(reports_view(r) =~= Seq::<Seq<u8>>::empty());
                    return r;
                }
                assert(body@ == packet@.skip(2));
                self.write_memory(body);
                trivial_ack(self.button_bytes(), raw_id)
            },
            OutputReportId::ReadMemoryAndRegisters => {
                if body.len() < 6 {
                    let r = Vec::new();
                    assert(reports_view(r) =~= Seq::<Seq<u8>>::empty());
                    return r;
                }
                let address_space = body[0] & 0x06;
                let address = decode_mem_address(body);
                let (hi, lo) = (body[4] as usize, body[5] as usize);
                let size = hi * 256 + lo;
                self.read_memory_response(address_space, address, size)
            },
            OutputReportId::IrCameraEnable2 => {
                self.ir_enabled_pin2 = body.len() > 0 && (body[0] & 0x04) != 0;
                trivial_ack(self.button_bytes(), raw_id)
            },
        }
    }
}

} // verus!

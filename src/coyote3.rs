//! The Coyote 3 protocol: pulse and settings frames, notifications, and the
//! state that the notifications keep up to date.

use vstd::prelude::*;
use vstd::arithmetic::div_mod::{
    lemma_div_is_ordered_by_denominator,
    lemma_div_denominator,
    lemma_hoist_over_denominator,
};

use crate::stereo::Stereo;

verus! {

/// The byte that stands on the wire for a pulse of frequency `f` (in Hz).
///
/// With the period `t = 1000 / f` (in ms) the byte is `t` truncated, cut to
/// 5 below and 240 above, and compressed piecewise linearly from 100 ms on:
/// `(t - 100) / 5 + 100` up to 600 ms, `(t - 600) / 10 + 200` up to 1000 ms.
/// The comparisons are made on `1000 / f` exactly. A frequency of 0 is silence.
pub open spec fn compressed_frequency(f: int) -> int {
    if f <= 0 {
        0
    } else if 1000 < 5 * f {
        5
    } else if 1000 < 100 * f {
        1000int / f
    } else if 1000 < 600 * f {
        (1000 - 100 * f) / (5 * f) + 100
    } else if 1000 < 1000 * f {
        (1000 - 600 * f) / (10 * f) + 200
    } else {
        240
    }
}

/// An intensity cut to the range 0 to 100.
pub open spec fn clamped(i: int) -> int {
    if i <= 100 {
        i
    } else {
        100
    }
}

/// A single frequency-intensity set representing 25 ms of a waveform for a single channel.
#[derive(Clone, Copy, Debug, PartialEq, Eq, Structural)]
pub struct Pulse {
    /// The frequency in Hz, from 1 Hz to 100 Hz (official maximum) or 200 Hz (actual maximum).
    pub frequency: u8,
    /// The pulse amplitude as an abstract value in the range of 0 to 100.
    pub intensity: u8,
}

/// On the compressed period segment from 100 ms to 600 ms the byte is `200 / f + 80`.
proof fn lemma_mid_segment(f: int)
    requires
        0 < f,
    ensures
        (1000 - 100 * f) / (5 * f) + 100 == 200int / f + 80,
{
    assert(5 * f > 0);
    lemma_hoist_over_denominator(1000 - 100 * f, 20, (5 * f) as nat);
    assert((1000 - 100 * f) + 20 * (5 * f) == 1000) by (nonlinear_arith);
    lemma_div_denominator(1000, 5, f);
}

impl Pulse {
    /// The compressed frequency byte that the device expects for this pulse.
    pub fn compressed_frequency_value(&self) -> (r: u8)
        ensures
            r as int == compressed_frequency(self.frequency as int),
    {
        if self.frequency == 0 {
            return 0;
        }
        let f: u32 = self.frequency as u32;
        proof {
            lemma_compressed_frequency_range(f as int);
        }
        if 1000 < 5 * f {
            5
        } else if 1000 < 100 * f {
            (1000 / f) as u8
        } else if 1000 < 600 * f {
            ((1000 - 100 * f) / (5 * f) + 100) as u8
        } else if 1000 < 1000 * f {
            ((1000 - 600 * f) / (10 * f) + 200) as u8
        } else {
            240
        }
    }

    /// The intensity, capped at 100.
    pub fn clamped_intensity(&self) -> (r: u8)
        ensures
            r as int == clamped(self.intensity as int),
    {
        if self.intensity <= 100 {
            self.intensity
        } else {
            100
        }
    }
}

/// Every frequency from 1 Hz on compresses to a byte from 5 to 240, and a
/// frequency of 0 to the byte 0.
pub proof fn lemma_compressed_frequency_range(f: int)
    requires
        0 <= f,
    ensures
        f == 0 ==> compressed_frequency(f) == 0,
        1 <= f ==> 5 <= compressed_frequency(f) <= 240,
{
    if 1 <= f {
        if 1000 < 5 * f {
        } else if 1000 < 100 * f {
            lemma_div_is_ordered_by_denominator(1000, f, 200);
            lemma_div_is_ordered_by_denominator(1000, 10, f);
            assert(1000int / 200 == 5 && 1000int / 10 == 100);
        } else if 1000 < 600 * f {
            lemma_mid_segment(f);
            lemma_div_is_ordered_by_denominator(200, 2, f);
            lemma_div_is_ordered_by_denominator(200, f, 10);
            assert(200int / 2 == 100 && 200int / 10 == 20);
        } else if 1000 < 1000 * f {
            assert(false) by (nonlinear_arith)
                requires 1000 >= 600 * f, 1000 < 1000 * f;
        }
    }
}

/// A higher frequency means a shorter period, and never a larger compressed byte.
pub proof fn lemma_compressed_frequency_monotonic(f1: int, f2: int)
    requires
        0 < f1 < f2,
    ensures
        compressed_frequency(f1) >= compressed_frequency(f2),
{
    lemma_compressed_frequency_range(f1);
    lemma_compressed_frequency_range(f2);
    // The segments are ordered by frequency, and so are their bytes.
    if 1000 < 5 * f2 {
    } else if 1000 < 100 * f2 {
        lemma_div_is_ordered_by_denominator(1000, 10, f2);
        assert(1000int / 10 == 100);
        if 1000 < 100 * f1 {
            lemma_div_is_ordered_by_denominator(1000, f1, f2);
        } else if 1000 < 600 * f1 {
            lemma_mid_segment(f1);
            lemma_div_is_ordered_by_denominator(200, f1, 10);
            assert(200int / 10 == 20);
        }
    } else if 1000 < 600 * f2 {
        if 1000 < 600 * f1 {
            lemma_mid_segment(f1);
            lemma_mid_segment(f2);
            lemma_div_is_ordered_by_denominator(200, f1, f2);
        }
    } else {
        assert(false) by (nonlinear_arith)
            requires 1000 >= 600 * f2, 0 < f1 < f2;
    }
}

/// Clamping keeps every intensity up to 100 and caps all others at 100.
pub proof fn lemma_clamped_range(i: int)
    requires
        0 <= i <= 255,
    ensures
        0 <= clamped(i) <= 100,
        i <= 100 ==> clamped(i) == i,
{
}

/// Used to describe if and how the stimulation intensity should be changed.
///
/// Relative changes are often preferable: an absolute change overrides any
/// change made with the device's own intensity switches.
#[derive(Clone, Copy, Debug, PartialEq, Eq, Structural)]
pub enum IntensityChange {
    /// Do not change the intensity.
    DoNotChange,
    /// Increase the intensity by `x`.
    RelativeIncrease(u8),
    /// Decrease the intensity by `x`.
    RelativeDecrease(u8),
    /// Set the intensity to `x`.
    AbsoluteChange(u8),
}

/// The two mode bits of an intensity change.
pub open spec fn mode_of(c: IntensityChange) -> u8 {
    match c {
        IntensityChange::DoNotChange => 0,
        IntensityChange::RelativeIncrease(_) => 1,
        IntensityChange::RelativeDecrease(_) => 2,
        IntensityChange::AbsoluteChange(_) => 3,
    }
}

/// The value byte of an intensity change: its magnitude, or 0 for no change.
pub open spec fn value_of(c: IntensityChange) -> u8 {
    match c {
        IntensityChange::DoNotChange => 0,
        IntensityChange::RelativeIncrease(v) => v,
        IntensityChange::RelativeDecrease(v) => v,
        IntensityChange::AbsoluteChange(v) => v,
    }
}

impl IntensityChange {
    /// The two mode bits that select how the intensity changes.
    pub fn mode(&self) -> (r: u8)
        ensures
            r == mode_of(*self),
            r < 4,
    {
        match self {
            IntensityChange::DoNotChange => 0b00,
            IntensityChange::RelativeIncrease(_) => 0b01,
            IntensityChange::RelativeDecrease(_) => 0b10,
            IntensityChange::AbsoluteChange(_) => 0b11,
        }
    }

    /// The value byte that goes with the mode.
    pub fn value(&self) -> (r: u8)
        ensures
            r == value_of(*self),
    {
        match self {
            IntensityChange::DoNotChange => 0,
            IntensityChange::RelativeIncrease(v) => *v,
            IntensityChange::RelativeDecrease(v) => *v,
            IntensityChange::AbsoluteChange(v) => *v,
        }
    }
}

/// The byte that packs the mode bits of both channels, A in the upper pair.
pub open spec fn mode_byte(intensity: Stereo<IntensityChange>) -> u8 {
    (mode_of(intensity.a) << 2u8) | mode_of(intensity.b)
}

/// The compressed frequencies of channel A over four slots.
pub open spec fn frequencies_a(p: Seq<Stereo<Pulse>>) -> Seq<u8> {
    Seq::new(4, |j: int| compressed_frequency(p[j].a.frequency as int) as u8)
}

/// The clamped intensities of channel A over four slots.
pub open spec fn intensities_a(p: Seq<Stereo<Pulse>>) -> Seq<u8> {
    Seq::new(4, |j: int| clamped(p[j].a.intensity as int) as u8)
}

/// The compressed frequencies of channel B over four slots.
pub open spec fn frequencies_b(p: Seq<Stereo<Pulse>>) -> Seq<u8> {
    Seq::new(4, |j: int| compressed_frequency(p[j].b.frequency as int) as u8)
}

/// The clamped intensities of channel B over four slots.
pub open spec fn intensities_b(p: Seq<Stereo<Pulse>>) -> Seq<u8> {
    Seq::new(4, |j: int| clamped(p[j].b.intensity as int) as u8)
}

/// The pulse data that is expected to be sent every 100 ms to the device.
#[derive(Clone, Copy, Debug)]
pub struct Pulses {
    /// How the stimulation intensity changes, per channel.
    pub intensity: Stereo<IntensityChange>,
    /// The waveform: four pulses of 25 ms each, with frequency and amplitude per channel.
    pub pulses: [Stereo<Pulse>; 4],
}

impl Pulses {
    /// The 16 waveform bytes as four rows: frequencies of A, intensities of A,
    /// frequencies of B, intensities of B, each over the four slots.
    pub fn convert_pulses(pulses: &[Stereo<Pulse>; 4]) -> (r: [[u8; 4]; 4])
        ensures
            r@[0]@ == frequencies_a(pulses@),
            r@[1]@ == intensities_a(pulses@),
            r@[2]@ == frequencies_b(pulses@),
            r@[3]@ == intensities_b(pulses@),
    {
        let fa = [
            pulses[0].a.compressed_frequency_value(),
            pulses[1].a.compressed_frequency_value(),
            pulses[2].a.compressed_frequency_value(),
            pulses[3].a.compressed_frequency_value(),
        ];
        let ia = [
            pulses[0].a.clamped_intensity(),
            pulses[1].a.clamped_intensity(),
            pulses[2].a.clamped_intensity(),
            pulses[3].a.clamped_intensity(),
        ];
        let fb = [
            pulses[0].b.compressed_frequency_value(),
            pulses[1].b.compressed_frequency_value(),
            pulses[2].b.compressed_frequency_value(),
            pulses[3].b.compressed_frequency_value(),
        ];
        let ib = [
            pulses[0].b.clamped_intensity(),
            pulses[1].b.clamped_intensity(),
            pulses[2].b.clamped_intensity(),
            pulses[3].b.clamped_intensity(),
        ];
        assert(fa@ =~= frequencies_a(pulses@));
        assert(ia@ =~= intensities_a(pulses@));
        assert(fb@ =~= frequencies_b(pulses@));
        assert(ib@ =~= intensities_b(pulses@));
        [fa, ia, fb, ib]
    }
}

/// The device settings of the Coyote 3.
#[derive(Clone, Copy, Debug, PartialEq, Eq, Structural)]
pub struct DeviceSettings {
    /// The maximum intensity limit. A user must be able to set this to a
    /// level that suits them.
    pub limit: Stereo<u8>,
    /// The frequency balance: how strongly low-frequency waveforms are felt
    /// at a fixed channel intensity.
    pub frequency_balance: Stereo<u8>,
    /// The intensity balance, which affects the pulse width of the waveform.
    pub intensity_balance: Stereo<u8>,
}

impl Default for DeviceSettings {
    /// Limit 70, frequency balance 160 and intensity balance 0 on both channels.
    fn default() -> (r: Self)
        ensures
            r == (DeviceSettings {
                limit: Stereo { a: 70, b: 70 },
                frequency_balance: Stereo { a: 160, b: 160 },
                intensity_balance: Stereo { a: 0, b: 0 },
            }),
    {
        DeviceSettings {
            limit: Stereo::symmetric(70),
            frequency_balance: Stereo::symmetric(160),
            intensity_balance: Stereo::symmetric(0),
        }
    }
}

/// The current state of the Coyote 3, as the device last reported it.
#[derive(Clone, Copy, Debug, PartialEq, Eq, Structural)]
pub struct State {
    /// The current battery charge in percent.
    pub battery: u8,
    /// The current stimulation intensity.
    pub intensity: Stereo<u8>,
    /// The current device settings.
    pub settings: DeviceSettings,
}

impl Default for State {
    /// An empty battery, zero intensity and the default settings.
    fn default() -> (r: Self)
        ensures
            r.battery == 0,
            r.intensity == (Stereo::<u8> { a: 0, b: 0 }),
            r.settings == (DeviceSettings {
                limit: Stereo { a: 70, b: 70 },
                frequency_balance: Stereo { a: 160, b: 160 },
                intensity_balance: Stereo { a: 0, b: 0 },
            }),
    {
        State { battery: 0, intensity: Stereo::symmetric(0), settings: DeviceSettings::default() }
    }
}

/// The magic byte of the pulse frame.
pub const SEND_PULSES_MAGIC: u8 = 0xB0;

/// The magic byte of the settings frame.
pub const UPDATE_SETTINGS_MAGIC: u8 = 0xBF;

/// The six settings bytes: limits, frequency balances, intensity balances, A before B.
pub open spec fn settings_bytes(s: DeviceSettings) -> Seq<u8> {
    seq![
        s.limit.a,
        s.limit.b,
        s.frequency_balance.a,
        s.frequency_balance.b,
        s.intensity_balance.a,
        s.intensity_balance.b,
    ]
}

/// The 20-byte pulse frame: magic, mode byte, the two change values, then the waveform rows.
pub open spec fn pulses_frame(p: Pulses) -> Seq<u8> {
    seq![SEND_PULSES_MAGIC, mode_byte(p.intensity), value_of(p.intensity.a), value_of(p.intensity.b)]
        + frequencies_a(p.pulses@) + intensities_a(p.pulses@) + frequencies_b(p.pulses@)
        + intensities_b(p.pulses@)
}

/// The 7-byte settings frame: magic, then the six settings bytes.
pub open spec fn settings_frame(s: DeviceSettings) -> Seq<u8> {
    seq![UPDATE_SETTINGS_MAGIC] + settings_bytes(s)
}

/// A command to the device.
#[derive(Clone, Copy, Debug)]
pub enum Command {
    /// Send the next 100 ms of waveform.
    SendPulses(Pulses),
    /// Replace the device settings.
    UpdateSettings(DeviceSettings),
}

/// The frame that carries a command.
pub open spec fn command_frame(c: Command) -> Seq<u8> {
    match c {
        Command::SendPulses(p) => pulses_frame(p),
        Command::UpdateSettings(s) => settings_frame(s),
    }
}

/// Append the four bytes of a row.
fn push_row(buf: &mut Vec<u8>, row: &[u8; 4])
    ensures
        final(buf)@ == old(buf)@ + row@,
{
    let ghost start = buf@;
    let mut i: usize = 0;
    while i < 4
        invariant
            i <= 4,
            row@.len() == 4,
            buf@ == start + row@.subrange(0, i as int),
        decreases 4 - i,
    {
        buf.push(row[i]);
        i += 1;
        assert(row@.subrange(0, i as int) =~= row@.subrange(0, i - 1).push(row@[i - 1]));
    }
    assert(row@.subrange(0, 4) =~= row@);
}

impl Command {
    /// The frame that carries this command: 20 bytes for pulses, 7 for settings.
    pub fn to_bytes(self) -> (r: Vec<u8>)
        ensures
            r@ == command_frame(self),
    {
        let mut buf: Vec<u8> = Vec::new();
        match self {
            Command::SendPulses(p) => {
                buf.push(SEND_PULSES_MAGIC);
                buf.push((p.intensity.a.mode() << 2) | p.intensity.b.mode());
                buf.push(p.intensity.a.value());
                buf.push(p.intensity.b.value());
                let rows = Pulses::convert_pulses(&p.pulses);
                push_row(&mut buf, &rows[0]);
                push_row(&mut buf, &rows[1]);
                push_row(&mut buf, &rows[2]);
                push_row(&mut buf, &rows[3]);
                assert(buf@ =~= pulses_frame(p));
            },
            Command::UpdateSettings(s) => {
                buf.push(UPDATE_SETTINGS_MAGIC);
                buf.push(s.limit.a);
                buf.push(s.limit.b);
                buf.push(s.frequency_balance.a);
                buf.push(s.frequency_balance.b);
                buf.push(s.intensity_balance.a);
                buf.push(s.intensity_balance.b);
                assert(buf@ =~= settings_frame(s));
            },
        }
        buf
    }
}

/// The magic byte of the intensity notification.
pub const INTENSITY_CHANGE_MAGIC: u8 = 0xB1;

/// The magic byte of the settings notification.
pub const SETTINGS_CHANGE_MAGIC: u8 = 0xBE;

/// A notification that the device sends on its notify characteristic.
#[derive(Clone, Copy, Debug, PartialEq, Eq, Structural)]
pub enum Notification {
    /// The effective intensity changed.
    IntensityChange {
        /// The serial number of the change.
        serial: u8,
        /// The intensity now in effect.
        intensity: Stereo<u8>,
    },
    /// The effective settings changed.
    DeviceSettingsChange(DeviceSettings),
}

/// Why a notification frame could not be read.
#[derive(Clone, Copy, Debug, PartialEq, Eq, Structural)]
pub enum DecodeError {
    /// The frame ends before its payload does.
    Truncated,
    /// The frame starts with a byte that selects no notification.
    UnknownMagic(u8),
}

/// The settings held by six bytes in frame order.
pub open spec fn settings_of(b: Seq<u8>) -> DeviceSettings {
    DeviceSettings {
        limit: Stereo { a: b[0], b: b[1] },
        frequency_balance: Stereo { a: b[2], b: b[3] },
        intensity_balance: Stereo { a: b[4], b: b[5] },
    }
}

/// What a frame decodes to. The magic byte selects the variant; bytes after
/// the payload are not read.
pub open spec fn decoded(b: Seq<u8>) -> Result<Notification, DecodeError> {
    if b.len() == 0 {
        Err(DecodeError::Truncated)
    } else if b[0] == INTENSITY_CHANGE_MAGIC {
        if b.len() < 4 {
            Err(DecodeError::Truncated)
        } else {
            Ok(Notification::IntensityChange { serial: b[1], intensity: Stereo { a: b[2], b: b[3] } })
        }
    } else if b[0] == SETTINGS_CHANGE_MAGIC {
        if b.len() < 7 {
            Err(DecodeError::Truncated)
        } else {
            Ok(Notification::DeviceSettingsChange(settings_of(b.subrange(1, 7))))
        }
    } else {
        Err(DecodeError::UnknownMagic(b[0]))
    }
}

impl Notification {
    /// Read a notification from the start of a frame.
    pub fn decode(bytes: &[u8]) -> (r: Result<Notification, DecodeError>)
        ensures
            r == decoded(bytes@),
    {
        if bytes.len() == 0 {
            Err(DecodeError::Truncated)
        } else if bytes[0] == INTENSITY_CHANGE_MAGIC {
            if bytes.len() < 4 {
                Err(DecodeError::Truncated)
            } else {
                Ok(
                    Notification::IntensityChange {
                        serial: bytes[1],
                        intensity: Stereo { a: bytes[2], b: bytes[3] },
                    },
                )
            }
        } else if bytes[0] == SETTINGS_CHANGE_MAGIC {
            if bytes.len() < 7 {
                Err(DecodeError::Truncated)
            } else {
                Ok(
                    Notification::DeviceSettingsChange(
                        DeviceSettings {
                            limit: Stereo { a: bytes[1], b: bytes[2] },
                            frequency_balance: Stereo { a: bytes[3], b: bytes[4] },
                            intensity_balance: Stereo { a: bytes[5], b: bytes[6] },
                        },
                    ),
                )
            }
        } else {
            Err(DecodeError::UnknownMagic(bytes[0]))
        }
    }
}

/// The characteristic that commands are written to.
pub const WRITE_CHARACTERISTIC: u128 = 0x0000150A_0000_1000_8000_00805f9b34fb;

/// The characteristic that notifications arrive on.
pub const NOTIFY_CHARACTERISTIC: u128 = 0x0000150B_0000_1000_8000_00805f9b34fb;

/// The characteristic that holds the battery charge.
pub const BATTERY_CHARACTERISTIC: u128 = 0x00001500_0000_1000_8000_00805f9b34fb;

/// The state after an update that arrived on characteristic `source`, or
/// `None` where the update changes nothing: a frame that does not decode, an
/// empty battery update, or a characteristic that carries no state.
pub open spec fn snapshot_after(s: State, source: u128, value: Seq<u8>) -> Option<State> {
    if source == NOTIFY_CHARACTERISTIC {
        match decoded(value) {
            Ok(Notification::IntensityChange { serial, intensity }) => Some(
                State { battery: s.battery, intensity, settings: s.settings },
            ),
            Ok(Notification::DeviceSettingsChange(settings)) => Some(
                State { battery: s.battery, intensity: s.intensity, settings },
            ),
            Err(_) => None,
        }
    } else if source == BATTERY_CHARACTERISTIC && value.len() > 0 {
        Some(State { battery: value[0], intensity: s.intensity, settings: s.settings })
    } else {
        None
    }
}

impl State {
    /// Take in an update that arrived on characteristic `source`. Returns the
    /// new snapshot, or `None` (and leaves the state as it was) where the
    /// update changes nothing.
    pub fn apply_update(&mut self, source: u128, value: &[u8]) -> (r: Option<State>)
        ensures
            r == snapshot_after(*old(self), source, value@),
            *final(self) == match r {
                Some(n) => n,
                None => *old(self),
            },
    {
        if source == NOTIFY_CHARACTERISTIC {
            match Notification::decode(value) {
                Ok(Notification::IntensityChange { serial: _, intensity }) => {
                    self.intensity = intensity;
                    Some(*self)
                },
                Ok(Notification::DeviceSettingsChange(settings)) => {
                    self.settings = settings;
                    Some(*self)
                },
                Err(_) => None,
            }
        } else if source == BATTERY_CHARACTERISTIC && value.len() > 0 {
            self.battery = value[0];
            Some(*self)
        } else {
            None
        }
    }
}

/// A frame with an unknown magic byte fails to decode, and as an update it
/// leaves every state as it was.
pub proof fn lemma_unknown_magic_rejected(s: State, value: Seq<u8>)
    requires
        value.len() > 0,
        value[0] != INTENSITY_CHANGE_MAGIC,
        value[0] != SETTINGS_CHANGE_MAGIC,
    ensures
        decoded(value) == Err::<Notification, DecodeError>(DecodeError::UnknownMagic(value[0])),
        snapshot_after(s, NOTIFY_CHARACTERISTIC, value) == None::<State>,
{
}

/// Whether updates of a characteristic are subscribed to: those of the
/// battery and notify characteristics.
pub fn is_subscribed(uuid: u128) -> (r: bool)
    ensures
        r == (uuid == BATTERY_CHARACTERISTIC || uuid == NOTIFY_CHARACTERISTIC),
{
    uuid == BATTERY_CHARACTERISTIC || uuid == NOTIFY_CHARACTERISTIC
}

/// Where the characteristics that a session needs stand in the list that
/// discovery gave.
#[derive(Clone, Copy, Debug, PartialEq, Eq, Structural)]
pub struct Characteristics {
    /// The index of the battery characteristic.
    pub battery: usize,
    /// The index of the write characteristic.
    pub write: usize,
}

/// A characteristic that the device must offer was not found.
#[derive(Clone, Copy, Debug, PartialEq, Eq, Structural)]
pub struct MissingCharacteristic {
    /// The identifier of the missing characteristic.
    pub uuid: u128,
}

/// `k` is the last position of `id` in `u`.
pub open spec fn is_last_of(u: Seq<u128>, id: u128, k: int) -> bool {
    &&& 0 <= k < u.len()
    &&& u[k] == id
    &&& forall|j: int| k < j < u.len() ==> u[j] != id
}

/// Find the battery and write characteristics among the discovered ones; the
/// last of equal identifiers counts. Where one is absent, the error names it,
/// the battery characteristic first.
pub fn select_characteristics(uuids: &[u128]) -> (r: Result<Characteristics, MissingCharacteristic>)
    ensures
        r is Ok <==> uuids@.contains(BATTERY_CHARACTERISTIC) && uuids@.contains(WRITE_CHARACTERISTIC),
        r matches Ok(c) ==> is_last_of(uuids@, BATTERY_CHARACTERISTIC, c.battery as int)
            && is_last_of(uuids@, WRITE_CHARACTERISTIC, c.write as int),
        r matches Err(e) ==> e.uuid == if uuids@.contains(BATTERY_CHARACTERISTIC) {
            WRITE_CHARACTERISTIC
        } else {
            BATTERY_CHARACTERISTIC
        },
{
    let mut battery: Option<usize> = None;
    let mut write: Option<usize> = None;
    let mut i: usize = 0;
    while i < uuids.len()
        invariant
            i <= uuids@.len(),
            battery matches Some(k) ==> is_last_of(uuids@.subrange(0, i as int), BATTERY_CHARACTERISTIC, k as int),
            battery is None ==> forall|j: int| 0 <= j < i ==> uuids@[j] != BATTERY_CHARACTERISTIC,
            write matches Some(k) ==> is_last_of(uuids@.subrange(0, i as int), WRITE_CHARACTERISTIC, k as int),
            write is None ==> forall|j: int| 0 <= j < i ==> uuids@[j] != WRITE_CHARACTERISTIC,
        decreases uuids.len() - i,
    {
        if uuids[i] == BATTERY_CHARACTERISTIC {
            battery = Some(i);
        } else if uuids[i] == WRITE_CHARACTERISTIC {
            write = Some(i);
        }
        i += 1;
    }
    assert(uuids@.subrange(0, i as int) =~= uuids@);
    match battery {
        None => Err(MissingCharacteristic { uuid: BATTERY_CHARACTERISTIC }),
        Some(b) => match write {
            None => Err(MissingCharacteristic { uuid: WRITE_CHARACTERISTIC }),
            Some(w) => Ok(Characteristics { battery: b, write: w }),
        },
    }
}

} // verus!

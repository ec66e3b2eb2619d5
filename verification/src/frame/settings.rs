//! SETTINGS frames.
use super::head::{spec_head_bytes, Head, Kind};
use super::stream_id::StreamId;
use super::wire::{be_bytes, be_value, put_u16, put_u32, read_u16, read_u32};
use super::Error;
use vstd::prelude::*;

verus! {

/// The size type of frame lengths.
pub type FrameSize = u32;

/// The default value of MAX_FRAME_SIZE.
pub const DEFAULT_MAX_FRAME_SIZE: FrameSize = 16_384;

/// INITIAL_WINDOW_SIZE upper bound.
pub const MAX_INITIAL_WINDOW_SIZE: usize = 2_147_483_647;

/// MAX_FRAME_SIZE upper bound.
pub const MAX_MAX_FRAME_SIZE: FrameSize = 16_777_215;

/// One setting of a SETTINGS frame; each carries a 32-bit value.
#[derive(Copy, Clone, Debug, PartialEq, Eq, Structural)]
pub enum Setting {
    HeaderTableSize(u32),
    EnablePush(u32),
    MaxConcurrentStreams(u32),
    InitialWindowSize(u32),
    MaxFrameSize(u32),
    MaxHeaderListSize(u32),
}

/// The setting that identifier `id` names with value `val`, if `id` is one of
/// the six known identifiers.
pub open spec fn spec_setting_from_id(id: int, val: u32) -> Option<Setting> {
    if id == 1 {
        Some(Setting::HeaderTableSize(val))
    } else if id == 2 {
        Some(Setting::EnablePush(val))
    } else if id == 3 {
        Some(Setting::MaxConcurrentStreams(val))
    } else if id == 4 {
        Some(Setting::InitialWindowSize(val))
    } else if id == 5 {
        Some(Setting::MaxFrameSize(val))
    } else if id == 6 {
        Some(Setting::MaxHeaderListSize(val))
    } else {
        None
    }
}

/// The identifier and the value of a setting.
pub open spec fn spec_setting_parts(s: Setting) -> (u16, u32) {
    match s {
        Setting::HeaderTableSize(v) => (1, v),
        Setting::EnablePush(v) => (2, v),
        Setting::MaxConcurrentStreams(v) => (3, v),
        Setting::InitialWindowSize(v) => (4, v),
        Setting::MaxFrameSize(v) => (5, v),
        Setting::MaxHeaderListSize(v) => (6, v),
    }
}

/// The six bytes of a setting: its identifier (two bytes), then its value
/// (four bytes), big-endian.
pub open spec fn spec_setting_bytes(s: Setting) -> Seq<u8> {
    be_bytes(spec_setting_parts(s).0 as nat, 2) + be_bytes(spec_setting_parts(s).1 as nat, 4)
}

/// What `Setting::load` reads from six bytes.
pub open spec fn spec_setting_load(raw: Seq<u8>) -> Option<Setting> {
    spec_setting_from_id(be_value(raw.subrange(0, 2)) as int, be_value(raw.subrange(2, 6)) as u32)
}

impl Setting {
    /// The setting with identifier `id` (section 6.5.2) and value `val`, or
    /// `None` for an identifier that names no setting.
    pub fn from_id(id: u16, val: u32) -> (r: Option<Setting>)
        ensures
            r == spec_setting_from_id(id as int, val),
    {
        match id {
            1 => Some(Setting::HeaderTableSize(val)),
            2 => Some(Setting::EnablePush(val)),
            3 => Some(Setting::MaxConcurrentStreams(val)),
            4 => Some(Setting::InitialWindowSize(val)),
            5 => Some(Setting::MaxFrameSize(val)),
            6 => Some(Setting::MaxHeaderListSize(val)),
            _ => None,
        }
    }

    /// Reads a setting from the first six bytes of `raw`: a two-byte
    /// identifier and a four-byte value.
    pub fn load(raw: &[u8]) -> (r: Option<Setting>)
        requires
            raw@.len() >= 6,
        ensures
            r == spec_setting_load(raw@),
    {
        let id = read_u16(raw, 0);
        let val = read_u32(raw, 2);
        Setting::from_id(id, val)
    }

    /// Appends the six bytes of this setting.
    pub fn encode(&self, dst: &mut Vec<u8>)
        ensures
            final(dst)@ == old(dst)@ + spec_setting_bytes(*self),
    {
        let (kind, val): (u16, u32) = match *self {
            Setting::HeaderTableSize(v) => (1, v),
            Setting::EnablePush(v) => (2, v),
            Setting::MaxConcurrentStreams(v) => (3, v),
            Setting::InitialWindowSize(v) => (4, v),
            Setting::MaxFrameSize(v) => (5, v),
            Setting::MaxHeaderListSize(v) => (6, v),
        };
        put_u16(dst, kind);
        put_u32(dst, val);
        proof {
            assert(final(dst)@ =~= old(dst)@ + spec_setting_bytes(*self));
        }
    }
}

/// The flags of a SETTINGS frame; `ACK` is the only one.
#[derive(Copy, Clone, Debug, PartialEq, Eq, Structural)]
pub struct SettingsFlags {
    ack: bool,
}

impl View for SettingsFlags {
    /// Whether `ACK` is set.
    type V = bool;

    closed spec fn view(&self) -> bool {
        self.ack
    }
}

impl SettingsFlags {
    /// Reads the flags from a flags byte, dropping unknown bits.
    pub fn load(bits: u8) -> (r: Self)
        ensures
            r@ == (bits % 2 == 1),
    {
        let ack = bits & 1 != 0;
        assert(ack == (bits % 2 == 1)) by (bit_vector)
            requires
                ack == (bits & 1 != 0),
        ;
        SettingsFlags { ack }
    }

    /// The flags of an acknowledgement.
    pub fn ack() -> (r: Self)
        ensures
            r@,
    {
        SettingsFlags { ack: true }
    }

    /// No flag set.
    pub fn empty() -> (r: Self)
        ensures
            !r@,
    {
        SettingsFlags { ack: false }
    }

    /// Returns true if `ACK` is set.
    pub fn is_ack(&self) -> (r: bool)
        ensures
            r == self@,
    {
        self.ack
    }

    /// The flags byte.
    pub fn bits(&self) -> (r: u8)
        ensures
            r == (if self@ { 1u8 } else { 0u8 }),
    {
        if self.ack {
            1
        } else {
            0
        }
    }

    /// Two flag values are equal exactly when their views are.
    pub proof fn lemma_view_injective(a: Self, b: Self)
        ensures
            a == b <==> a@ == b@,
    {
    }
}

impl Default for SettingsFlags {
    fn default() -> (r: Self)
        ensures
            !r@,
    {
        SettingsFlags { ack: false }
    }
}

/// The content of a SETTINGS frame: whether it acknowledges, and each setting
/// it carries.
pub struct SettingsModel {
    pub ack: bool,
    pub header_table_size: Option<u32>,
    pub enable_push: Option<u32>,
    pub max_concurrent_streams: Option<u32>,
    pub initial_window_size: Option<u32>,
    pub max_frame_size: Option<u32>,
    pub max_header_list_size: Option<u32>,
}

/// A SETTINGS frame with no flag and no setting.
pub open spec fn spec_empty_settings() -> SettingsModel {
    SettingsModel {
        ack: false,
        header_table_size: None,
        enable_push: None,
        max_concurrent_streams: None,
        initial_window_size: None,
        max_frame_size: None,
        max_header_list_size: None,
    }
}

/// A SETTINGS acknowledgement.
pub open spec fn spec_ack_settings() -> SettingsModel {
    SettingsModel { ack: true, ..spec_empty_settings() }
}

/// The SETTINGS frame.
#[derive(Copy, Clone, Debug, PartialEq, Eq, Structural)]
pub struct Settings {
    flags: SettingsFlags,
    header_table_size: Option<u32>,
    enable_push: Option<u32>,
    max_concurrent_streams: Option<u32>,
    initial_window_size: Option<u32>,
    max_frame_size: Option<u32>,
    max_header_list_size: Option<u32>,
}

impl View for Settings {
    type V = SettingsModel;

    closed spec fn view(&self) -> SettingsModel {
        SettingsModel {
            ack: self.flags@,
            header_table_size: self.header_table_size,
            enable_push: self.enable_push,
            max_concurrent_streams: self.max_concurrent_streams,
            initial_window_size: self.initial_window_size,
            max_frame_size: self.max_frame_size,
            max_header_list_size: self.max_header_list_size,
        }
    }
}

/// The model after applying one setting read from six bytes, or `None` when
/// the value is out of the range the protocol allows for it. Unknown
/// identifiers leave the model unchanged.
pub open spec fn spec_apply_setting(m: SettingsModel, raw: Seq<u8>) -> Option<SettingsModel> {
    match spec_setting_load(raw) {
        Some(st) => spec_apply_value(m, st),
        None => Some(m),
    }
}

/// The `k`-th six-byte chunk of a settings payload.
pub open spec fn spec_chunk(payload: Seq<u8>, k: int) -> Seq<u8> {
    payload.subrange(6 * k, 6 * k + 6)
}

/// The model after the first `k` chunks of `payload`, starting from no
/// setting, or `None` if one of them holds an invalid value.
pub open spec fn spec_load_chunks(payload: Seq<u8>, k: nat) -> Option<SettingsModel>
    decreases k,
{
    if k == 0 {
        Some(spec_empty_settings())
    } else {
        match spec_load_chunks(payload, (k - 1) as nat) {
            Some(m) => spec_apply_setting(m, spec_chunk(payload, k - 1)),
            None => None,
        }
    }
}

/// What `Settings::load` makes of a frame header and payload.
pub open spec fn spec_settings_load(head: Head, payload: Seq<u8>) -> Result<SettingsModel, Error> {
    if head.stream_id.0 != 0 {
        Err(Error::InvalidStreamId)
    } else if head.flags % 2 == 1 {
        if payload.len() != 0 {
            Err(Error::InvalidPayloadAckSettings)
        } else {
            Ok(spec_ack_settings())
        }
    } else if payload.len() % 6 != 0 {
        Err(Error::InvalidPayloadLength)
    } else {
        match spec_load_chunks(payload, payload.len() / 6) {
            Some(m) => Ok(m),
            None => Err(Error::InvalidSettingValue),
        }
    }
}

/// The bytes of a setting that may be absent.
pub open spec fn spec_opt_setting_bytes(s: Option<Setting>) -> Seq<u8> {
    match s {
        Some(s) => spec_setting_bytes(s),
        None => Seq::empty(),
    }
}

/// `s` with the setting of identifier `id` appended when `x` holds a value.
pub open spec fn spec_push_opt(s: Seq<Setting>, x: Option<u32>, id: int) -> Seq<Setting> {
    match x {
        Some(v) => s.push(spec_setting_from_id(id, v).unwrap()),
        None => s,
    }
}

/// The settings a model carries, in the order they are encoded: by
/// increasing identifier.
pub open spec fn spec_entries(m: SettingsModel) -> Seq<Setting> {
    spec_push_opt(
        spec_push_opt(
            spec_push_opt(
                spec_push_opt(
                    spec_push_opt(
                        spec_push_opt(Seq::empty(), m.header_table_size, 1),
                        m.enable_push,
                        2,
                    ),
                    m.max_concurrent_streams,
                    3,
                ),
                m.initial_window_size,
                4,
            ),
            m.max_frame_size,
            5,
        ),
        m.max_header_list_size,
        6,
    )
}

/// The concatenated bytes of a list of settings.
pub open spec fn spec_settings_bytes(s: Seq<Setting>) -> Seq<u8>
    decreases s.len(),
{
    if s.len() == 0 {
        Seq::empty()
    } else {
        spec_settings_bytes(s.drop_last()) + spec_setting_bytes(s.last())
    }
}

/// The payload of an encoded SETTINGS frame.
pub open spec fn spec_settings_payload(m: SettingsModel) -> Seq<u8> {
    spec_settings_bytes(spec_entries(m))
}

/// The whole encoded SETTINGS frame: header, then payload.
pub open spec fn spec_settings_frame(m: SettingsModel) -> Seq<u8> {
    spec_head_bytes(
        Head { kind: Kind::Settings, flags: if m.ack { 1u8 } else { 0u8 }, stream_id: StreamId(0) },
        spec_settings_payload(m).len(),
    ) + spec_settings_payload(m)
}

/// Each setting takes six bytes.
pub proof fn lemma_settings_bytes_len(s: Seq<Setting>)
    ensures
        spec_settings_bytes(s).len() == 6 * s.len(),
    decreases s.len(),
{
    if s.len() > 0 {
        lemma_settings_bytes_len(s.drop_last());
        let x = s.last();
        super::wire::lemma_be_roundtrip(spec_setting_parts(x).0 as nat, 2);
        super::wire::lemma_be_roundtrip(spec_setting_parts(x).1 as nat, 4);
    }
}

impl Default for Settings {
    fn default() -> (r: Self)
        ensures
            r@ == spec_empty_settings(),
    {
        Settings {
            flags: SettingsFlags::empty(),
            header_table_size: None,
            enable_push: None,
            max_concurrent_streams: None,
            initial_window_size: None,
            max_frame_size: None,
            max_header_list_size: None,
        }
    }
}

impl Settings {
    /// A SETTINGS acknowledgement: the `ACK` flag and no setting.
    pub fn ack() -> (r: Settings)
        ensures
            r@ == spec_ack_settings(),
    {
        Settings { flags: SettingsFlags::ack(), ..Settings::default() }
    }

    /// Returns true if this frame acknowledges the peer's settings.
    pub fn is_ack(&self) -> (r: bool)
        ensures
            r == self@.ack,
    {
        self.flags.is_ack()
    }

    /// The flags of this frame.
    pub fn flags(&self) -> (r: SettingsFlags)
        ensures
            r@ == self@.ack,
    {
        self.flags
    }

    pub fn initial_window_size(&self) -> (r: Option<u32>)
        ensures
            r == self@.initial_window_size,
    {
        self.initial_window_size
    }

    pub fn set_initial_window_size(&mut self, size: Option<u32>)
        ensures
            final(self)@ == (SettingsModel { initial_window_size: size, ..old(self)@ }),
    {
        self.initial_window_size = size;
    }

    pub fn max_concurrent_streams(&self) -> (r: Option<u32>)
        ensures
            r == self@.max_concurrent_streams,
    {
        self.max_concurrent_streams
    }

    pub fn set_max_concurrent_streams(&mut self, max: Option<u32>)
        ensures
            final(self)@ == (SettingsModel { max_concurrent_streams: max, ..old(self)@ }),
    {
        self.max_concurrent_streams = max;
    }

    pub fn max_frame_size(&self) -> (r: Option<u32>)
        ensures
            r == self@.max_frame_size,
    {
        self.max_frame_size
    }

    /// Sets MAX_FRAME_SIZE; a value must lie between the default and the
    /// protocol's upper bound.
    pub fn set_max_frame_size(&mut self, size: Option<u32>)
        requires
            size matches Some(v) ==> DEFAULT_MAX_FRAME_SIZE <= v <= MAX_MAX_FRAME_SIZE,
        ensures
            final(self)@ == (SettingsModel { max_frame_size: size, ..old(self)@ }),
    {
        self.max_frame_size = size;
    }

    pub fn max_header_list_size(&self) -> (r: Option<u32>)
        ensures
            r == self@.max_header_list_size,
    {
        self.max_header_list_size
    }

    pub fn set_max_header_list_size(&mut self, size: Option<u32>)
        ensures
            final(self)@ == (SettingsModel { max_header_list_size: size, ..old(self)@ }),
    {
        self.max_header_list_size = size;
    }

    /// Whether the peer allows server push, if it said so.
    pub fn is_push_enabled(&self) -> (r: Option<bool>)
        ensures
            r == (match self@.enable_push {
                Some(v) => Some(v != 0),
                None => None,
            }),
    {
        match self.enable_push {
            Some(v) => Some(v != 0),
            None => None,
        }
    }

    pub fn set_enable_push(&mut self, enable: bool)
        ensures
            final(self)@ == (SettingsModel {
                enable_push: Some(if enable { 1u32 } else { 0u32 }),
                ..old(self)@
            }),
    {
        self.enable_push = Some(if enable { 1 } else { 0 });
    }

    pub fn header_table_size(&self) -> (r: Option<u32>)
        ensures
            r == self@.header_table_size,
    {
        self.header_table_size
    }

    /// The settings this frame carries, by increasing identifier.
    pub fn entries(&self) -> (r: Vec<Setting>)
        ensures
            r@ == spec_entries(self@),
    {
        let mut v: Vec<Setting> = Vec::new();
        if let Some(x) = self.header_table_size {
            v.push(Setting::HeaderTableSize(x));
        }
        if let Some(x) = self.enable_push {
            v.push(Setting::EnablePush(x));
        }
        if let Some(x) = self.max_concurrent_streams {
            v.push(Setting::MaxConcurrentStreams(x));
        }
        if let Some(x) = self.initial_window_size {
            v.push(Setting::InitialWindowSize(x));
        }
        if let Some(x) = self.max_frame_size {
            v.push(Setting::MaxFrameSize(x));
        }
        if let Some(x) = self.max_header_list_size {
            v.push(Setting::MaxHeaderListSize(x));
        }
        v
    }

    /// The length of the encoded payload: six bytes per setting.
    pub fn payload_len(&self) -> (r: usize)
        ensures
            r == spec_settings_payload(self@).len(),
    {
        let entries = self.entries();
        proof {
            lemma_settings_bytes_len(entries@);
        }
        6 * entries.len()
    }

    /// Appends the whole frame: a header on stream zero carrying the flags,
    /// then each setting.
    pub fn encode(&self, dst: &mut Vec<u8>)
        ensures
            final(dst)@ == old(dst)@ + spec_settings_frame(self@),
    {
        let head = Head::new(Kind::Settings, self.flags.bits(), StreamId::zero());
        let payload_len = self.payload_len();
        head.encode(payload_len, dst);
        let entries = self.entries();
        let ghost start = dst@;
        let mut i: usize = 0;
        while i < entries.len()
            invariant
                i <= entries@.len(),
                dst@ == start + spec_settings_bytes(entries@.subrange(0, i as int)),
            decreases entries@.len() - i,
        {
            entries[i].encode(dst);
            proof {
                assert(entries@.subrange(0, i + 1).drop_last() =~= entries@.subrange(0, i as int));
            }
            i = i + 1;
        }
        proof {
            assert(entries@.subrange(0, entries@.len() as int) =~= entries@);
            assert(final(dst)@ =~= old(dst)@ + spec_settings_frame(self@));
        }
    }

    /// Reads a SETTINGS frame from its header and payload.
    ///
    /// The stream must be zero; an acknowledgement must be empty; otherwise
    /// the payload must be whole six-byte settings, each with a value in its
    /// allowed range. Later settings override earlier ones and unknown
    /// identifiers are skipped.
    pub fn load(head: Head, payload: &[u8]) -> (r: Result<Settings, Error>)
        ensures
            r matches Ok(s) ==> spec_settings_load(head, payload@) == Ok::<SettingsModel, Error>(s@),
            r matches Err(e) ==> spec_settings_load(head, payload@) == Err::<SettingsModel, Error>(e),
    {
        if !head.stream_id().is_zero() {
            return Err(Error::InvalidStreamId);
        }
        let flags = SettingsFlags::load(head.flags());
        if flags.is_ack() {
            if payload.len() != 0 {
                return Err(Error::InvalidPayloadAckSettings);
            }
            return Ok(Settings::ack());
        }
        if payload.len() % 6 != 0 {
            return Err(Error::InvalidPayloadLength);
        }
        let mut settings = Settings::default();
        let total = payload.len();
        let n = total / 6;
        let mut k: usize = 0;
        while k < n
            invariant
                n == payload@.len() / 6,
                payload@.len() % 6 == 0,
                6 * n == payload@.len(),
                total == payload@.len(),
                head.stream_id.0 == 0,
                head.flags % 2 == 0,
                k <= n,
                spec_load_chunks(payload@, k as nat) == Some(settings@),
            decreases n - k,
        {
            assert(6 * k + 6 <= payload@.len()) by (nonlinear_arith)
                requires
                    k < n,
                    6 * n == payload@.len(),
            ;
            let raw = vstd::slice::slice_subrange(payload, 6 * k, 6 * k + 6);
            let ghost before = settings@;
            match Setting::load(raw) {
                Some(Setting::HeaderTableSize(val)) => {
                    settings.header_table_size = Some(val);
                },
                Some(Setting::EnablePush(val)) => {
                    if val == 0 || val == 1 {
                        settings.enable_push = Some(val);
                    } else {
                        proof {
                            lemma_load_chunks_fail(payload@, (k + 1) as nat, n as nat);
                        }
                        return Err(Error::InvalidSettingValue);
                    }
                },
                Some(Setting::MaxConcurrentStreams(val)) => {
                    settings.max_concurrent_streams = Some(val);
                },
                Some(Setting::InitialWindowSize(val)) => {
                    if val as usize > MAX_INITIAL_WINDOW_SIZE {
                        proof {
                            lemma_load_chunks_fail(payload@, (k + 1) as nat, n as nat);
                        }
                        return Err(Error::InvalidSettingValue);
                    } else {
                        settings.initial_window_size = Some(val);
                    }
                },
                Some(Setting::MaxFrameSize(val)) => {
                    if !(DEFAULT_MAX_FRAME_SIZE <= val && val <= MAX_MAX_FRAME_SIZE) {
                        proof {
                            lemma_load_chunks_fail(payload@, (k + 1) as nat, n as nat);
                        }
                        return Err(Error::InvalidSettingValue);
                    } else {
                        settings.max_frame_size = Some(val);
                    }
                },
                Some(Setting::MaxHeaderListSize(val)) => {
                    settings.max_header_list_size = Some(val);
                },
                None => {},
            }
            k = k + 1;
        }
        Ok(settings)
    }
}

/// Once a chunk holds an invalid value, no longer prefix loads.
pub proof fn lemma_load_chunks_fail(payload: Seq<u8>, k: nat, j: nat)
    requires
        spec_load_chunks(payload, k) is None,
        k <= j,
    ensures
        spec_load_chunks(payload, j) is None,
    decreases j - k,
{
    if k < j {
        lemma_load_chunks_fail(payload, k, (j - 1) as nat);
    }
}

/// The model after applying one setting value, or `None` when the value is out
/// of the range the protocol allows for it.
pub open spec fn spec_apply_value(m: SettingsModel, st: Setting) -> Option<SettingsModel> {
    match st {
        Setting::HeaderTableSize(v) => Some(SettingsModel { header_table_size: Some(v), ..m }),
        Setting::EnablePush(v) => if v == 0 || v == 1 {
            Some(SettingsModel { enable_push: Some(v), ..m })
        } else {
            None
        },
        Setting::MaxConcurrentStreams(v) => Some(SettingsModel { max_concurrent_streams: Some(v), ..m }),
        Setting::InitialWindowSize(v) => if v > MAX_INITIAL_WINDOW_SIZE {
            None
        } else {
            Some(SettingsModel { initial_window_size: Some(v), ..m })
        },
        Setting::MaxFrameSize(v) => if DEFAULT_MAX_FRAME_SIZE <= v <= MAX_MAX_FRAME_SIZE {
            Some(SettingsModel { max_frame_size: Some(v), ..m })
        } else {
            None
        },
        Setting::MaxHeaderListSize(v) => Some(SettingsModel { max_header_list_size: Some(v), ..m }),
    }
}

/// Applies a list of settings in order, starting from no setting.
pub open spec fn spec_apply_list(s: Seq<Setting>) -> Option<SettingsModel>
    decreases s.len(),
{
    if s.len() == 0 {
        Some(spec_empty_settings())
    } else {
        match spec_apply_list(s.drop_last()) {
            Some(m) => spec_apply_value(m, s.last()),
            None => None,
        }
    }
}

/// A setting read back from its six bytes is the setting.
pub proof fn lemma_setting_roundtrip(st: Setting)
    ensures
        spec_setting_bytes(st).len() == 6,
        spec_setting_load(spec_setting_bytes(st)) == Some(st),
{
    let (id, v) = spec_setting_parts(st);
    reveal_with_fuel(super::wire::pow256, 5);
    super::wire::lemma_be_small_roundtrip(id as nat, 2);
    super::wire::lemma_be_small_roundtrip(v as nat, 4);
    let b = spec_setting_bytes(st);
    assert(b.subrange(0, 2) =~= be_bytes(id as nat, 2));
    assert(b.subrange(2, 6) =~= be_bytes(v as nat, 4));
}

/// The `j`-th chunk of the bytes of a list of settings is the bytes of its
/// `j`-th setting.
pub proof fn lemma_settings_chunk(s: Seq<Setting>, j: int)
    requires
        0 <= j < s.len(),
    ensures
        spec_chunk(spec_settings_bytes(s), j) == spec_setting_bytes(s[j]),
    decreases s.len(),
{
    let p = spec_settings_bytes(s);
    let q = spec_settings_bytes(s.drop_last());
    lemma_settings_bytes_len(s.drop_last());
    lemma_setting_roundtrip(s.last());
    if j < s.len() - 1 {
        lemma_settings_chunk(s.drop_last(), j);
        assert(6 * j + 6 <= q.len()) by (nonlinear_arith)
            requires
                j < s.len() - 1,
                q.len() == 6 * (s.len() - 1),
        ;
        assert(spec_chunk(p, j) =~= spec_chunk(q, j));
    } else {
        assert(spec_chunk(p, j) =~= spec_setting_bytes(s.last()));
    }
}

/// Loading the first `k` chunks of the bytes of a list of settings applies
/// its first `k` settings.
pub proof fn lemma_load_chunks_list(s: Seq<Setting>, k: nat)
    requires
        k <= s.len(),
    ensures
        spec_load_chunks(spec_settings_bytes(s), k) == spec_apply_list(s.subrange(0, k as int)),
    decreases k,
{
    if k > 0 {
        lemma_load_chunks_list(s, (k - 1) as nat);
        lemma_settings_chunk(s, k - 1);
        lemma_setting_roundtrip(s[k - 1]);
        assert(s.subrange(0, k as int).drop_last() =~= s.subrange(0, k - 1));
    } else {
        assert(s.subrange(0, 0) =~= Seq::<Setting>::empty());
    }
}

/// A model the protocol accepts: every value within its range, and an
/// acknowledgement carries no setting.
pub open spec fn spec_settings_valid(m: SettingsModel) -> bool {
    &&& m.enable_push matches Some(v) ==> v <= 1
    &&& m.initial_window_size matches Some(v) ==> v <= MAX_INITIAL_WINDOW_SIZE
    &&& m.max_frame_size matches Some(v) ==> DEFAULT_MAX_FRAME_SIZE <= v <= MAX_MAX_FRAME_SIZE
    &&& m.ack ==> m == spec_ack_settings()
}

proof fn lemma_apply_push_opt(s: Seq<Setting>, x: Option<u32>, id: int)
    requires
        1 <= id <= 6,
    ensures
        spec_apply_list(spec_push_opt(s, x, id)) == (match x {
            Some(v) => match spec_apply_list(s) {
                Some(m) => spec_apply_value(m, spec_setting_from_id(id, v).unwrap()),
                None => None,
            },
            None => spec_apply_list(s),
        }),
{
    if let Some(v) = x {
        assert(spec_push_opt(s, x, id).drop_last() =~= s);
    }
}

/// Applying the encoded settings of a valid model, in order, rebuilds it.
pub proof fn lemma_apply_entries(m: SettingsModel)
    requires
        spec_settings_valid(m),
        !m.ack,
    ensures
        spec_apply_list(spec_entries(m)) == Some(m),
{
    let s0 = Seq::<Setting>::empty();
    let s1 = spec_push_opt(s0, m.header_table_size, 1);
    let s2 = spec_push_opt(s1, m.enable_push, 2);
    let s3 = spec_push_opt(s2, m.max_concurrent_streams, 3);
    let s4 = spec_push_opt(s3, m.initial_window_size, 4);
    let s5 = spec_push_opt(s4, m.max_frame_size, 5);
    let s6 = spec_push_opt(s5, m.max_header_list_size, 6);
    lemma_apply_push_opt(s0, m.header_table_size, 1);
    lemma_apply_push_opt(s1, m.enable_push, 2);
    lemma_apply_push_opt(s2, m.max_concurrent_streams, 3);
    lemma_apply_push_opt(s3, m.initial_window_size, 4);
    lemma_apply_push_opt(s4, m.max_frame_size, 5);
    lemma_apply_push_opt(s5, m.max_header_list_size, 6);
    let e = spec_empty_settings();
    let m1 = SettingsModel { header_table_size: m.header_table_size, ..e };
    let m2 = SettingsModel { enable_push: m.enable_push, ..m1 };
    let m3 = SettingsModel { max_concurrent_streams: m.max_concurrent_streams, ..m2 };
    let m4 = SettingsModel { initial_window_size: m.initial_window_size, ..m3 };
    let m5 = SettingsModel { max_frame_size: m.max_frame_size, ..m4 };
    let m6 = SettingsModel { max_header_list_size: m.max_header_list_size, ..m5 };
    assert(spec_apply_list(s1) == Some(m1));
    assert(spec_apply_list(s2) == Some(m2));
    assert(spec_apply_list(s3) == Some(m3));
    assert(spec_apply_list(s4) == Some(m4));
    assert(spec_apply_list(s5) == Some(m5));
    assert(spec_apply_list(s6) == Some(m6));
}

/// Reading back an encoded SETTINGS frame gives the settings that were
/// encoded, for every model the protocol accepts.
pub proof fn lemma_settings_roundtrip(m: SettingsModel)
    requires
        spec_settings_valid(m),
    ensures
        spec_settings_frame(m).len() >= 9,
        super::head::spec_parse_head(spec_settings_frame(m)) == (Head {
            kind: Kind::Settings,
            flags: if m.ack { 1u8 } else { 0u8 },
            stream_id: StreamId(0),
        }),
        spec_settings_load(
            super::head::spec_parse_head(spec_settings_frame(m)),
            spec_settings_frame(m).subrange(9, spec_settings_frame(m).len() as int),
        ) == Ok::<SettingsModel, Error>(m),
{
    let p = spec_settings_payload(m);
    let head = Head { kind: Kind::Settings, flags: if m.ack { 1u8 } else { 0u8 }, stream_id: StreamId(0) };
    let hb = spec_head_bytes(head, p.len());
    let f = spec_settings_frame(m);
    super::head::lemma_head_roundtrip(head, p.len());
    assert(f.subrange(9, f.len() as int) =~= p);
    assert(f.subrange(5, 9) =~= hb.subrange(5, 9));
    assert(super::head::spec_parse_head(f) == super::head::spec_parse_head(hb));
    let e = spec_entries(m);
    lemma_settings_bytes_len(e);
    if m.ack {
        assert(e =~= Seq::<Setting>::empty());
    } else {
        assert(p.len() % 6 == 0 && p.len() / 6 == e.len()) by (nonlinear_arith)
            requires
                p.len() == 6 * e.len(),
        ;
        lemma_load_chunks_list(e, e.len());
        assert(e.subrange(0, e.len() as int) =~= e);
        lemma_apply_entries(m);
    }
}

impl From<SettingsFlags> for u8 {
    fn from(val: SettingsFlags) -> (r: u8) {
        val.bits()
    }
}

impl vstd::std_specs::convert::FromSpecImpl<SettingsFlags> for u8 {
    open spec fn obeys_from_spec() -> bool {
        true
    }

    open spec fn from_spec(val: SettingsFlags) -> u8 {
        if val@ { 1u8 } else { 0u8 }
    }
}

/// A SETTINGS frame off stream zero is refused; an acknowledgement is
/// accepted, as the acknowledgement, exactly when it carries no payload; any
/// other SETTINGS payload must be whole six-byte settings, and an empty one
/// gives no setting.
pub proof fn lemma_settings_load_outcomes(head: Head, payload: Seq<u8>)
    ensures
        head.stream_id.0 != 0 ==> spec_settings_load(head, payload) == Err::<SettingsModel, Error>(
            Error::InvalidStreamId,
        ),
        head.stream_id.0 == 0 && head.flags % 2 == 1 && payload.len() != 0 ==> spec_settings_load(head, payload)
            == Err::<SettingsModel, Error>(Error::InvalidPayloadAckSettings),
        head.stream_id.0 == 0 && head.flags % 2 == 1 && payload.len() == 0 ==> spec_settings_load(head, payload)
            == Ok::<SettingsModel, Error>(spec_ack_settings()),
        head.stream_id.0 == 0 && head.flags % 2 == 0 && payload.len() % 6 != 0 ==> spec_settings_load(head, payload)
            == Err::<SettingsModel, Error>(Error::InvalidPayloadLength),
        head.stream_id.0 == 0 && head.flags % 2 == 0 && payload.len() == 0 ==> spec_settings_load(head, payload)
            == Ok::<SettingsModel, Error>(spec_empty_settings()),
        spec_settings_load(head, payload) matches Ok(m) ==> m.ack == (head.flags % 2 == 1),
{
    if head.stream_id.0 == 0 && head.flags % 2 == 0 && payload.len() % 6 == 0 {
        lemma_load_chunks_not_ack(payload, payload.len() / 6);
    }
}

/// Settings read from whole chunks never acknowledge.
proof fn lemma_load_chunks_not_ack(payload: Seq<u8>, k: nat)
    ensures
        spec_load_chunks(payload, k) matches Some(m) ==> !m.ack,
    decreases k,
{
    if k > 0 {
        lemma_load_chunks_not_ack(payload, (k - 1) as nat);
    }
}

} // verus!

//! Configuration of a LightSync installation, its bounds and its updates.
use crate::encoding;
use crate::text;
use vstd::prelude::*;
use vstd::std_specs::cmp::PartialEqSpecImpl;

verus! {

/// The schema version that this library reads and writes.
pub const CURRENT_SCHEMA_VERSION: u32 = 1;

/// The largest brightness, in percent.
pub const MAX_BRIGHTNESS: u8 = 100;

/// Why a value or a configuration is not acceptable.
#[derive(Clone, Copy, Debug, PartialEq, Eq)]
pub enum ValidationError {
    Empty { field: &'static str },
    OutOfRange { field: &'static str, min: u64, max: u64, value: u64 },
    UnsupportedSchema(u32),
    DuplicateProfile(ProfileId),
    UnknownActiveProfile(ProfileId),
    DuplicateChannel(u16),
}

impl ValidationError {
    /// The text that describes the error.
    pub open spec fn message_text(self) -> Seq<char> {
        match self {
            ValidationError::Empty { field } => field@ + " must not be empty"@,
            ValidationError::OutOfRange { field, min, max, value } => field@ + " must be between "@
                + text::decimal_text(min as nat) + " and "@ + text::decimal_text(max as nat)
                + ", got "@ + text::decimal_text(value as nat),
            ValidationError::UnsupportedSchema(version) => "unsupported schema version "@
                + text::decimal_text(version as nat),
            ValidationError::DuplicateProfile(id) => "duplicate profile id "@
                + encoding::uuid_text(id.uuid()),
            ValidationError::UnknownActiveProfile(id) => "active profile "@ + encoding::uuid_text(
                id.uuid(),
            ) + " does not exist"@,
            ValidationError::DuplicateChannel(id) => "duplicate entertainment channel id "@
                + text::decimal_text(id as nat),
        }
    }

    /// Describes the error.
    pub fn message(&self) -> (r: String)
        ensures
            r@ == self.message_text(),
    {
        match self {
            ValidationError::Empty { field } => text::concat(field, " must not be empty"),
            ValidationError::OutOfRange { field, min, max, value } => {
                let mut r: String = text::concat(field, " must be between ");
                r.append(text::decimal(*min).as_str());
                r.append(" and ");
                r.append(text::decimal(*max).as_str());
                r.append(", got ");
                r.append(text::decimal(*value).as_str());
                r
            },
            ValidationError::UnsupportedSchema(version) => text::concat(
                "unsupported schema version ",
                text::decimal(*version as u64).as_str(),
            ),
            ValidationError::DuplicateProfile(id) => text::concat(
                "duplicate profile id ",
                id.to_text().as_str(),
            ),
            ValidationError::UnknownActiveProfile(id) => text::concat3(
                "active profile ",
                id.to_text().as_str(),
                " does not exist",
            ),
            ValidationError::DuplicateChannel(id) => text::concat(
                "duplicate entertainment channel id ",
                text::decimal(*id as u64).as_str(),
            ),
        }
    }
}

/// The identifier of a bridge; never blank.
#[derive(Debug, PartialEq, Eq, Hash)]
pub struct BridgeId(String);

impl View for BridgeId {
    type V = Seq<char>;

    closed spec fn view(&self) -> Seq<char> {
        self.0@
    }
}

impl DeepView for BridgeId {
    type V = Seq<char>;

    open spec fn deep_view(&self) -> Seq<char> {
        self@
    }
}

impl BridgeId {
    #[verifier::type_invariant]
    spec fn not_blank(&self) -> bool {
        !text::blank(self.0@)
    }

    /// Takes a text that is not blank.
    pub fn new(value: String) -> (r: Result<Self, ValidationError>)
        ensures
            text::blank(value@) ==> r == Err::<Self, ValidationError>(
                (ValidationError::Empty { field: "bridge id" }),
            ),
            !text::blank(value@) ==> r is Ok && r->Ok_0@ == value@,
    {
        if text::is_blank(value.as_str()) {
            return Err(ValidationError::Empty { field: "bridge id" });
        }
        Ok(BridgeId(value))
    }

    /// The text of the identifier.
    pub fn as_str(&self) -> (r: &str)
        ensures
            r@ == self@,
            !text::blank(r@),
    {
        proof {
            use_type_invariant(self);
        }
        self.0.as_str()
    }

    /// Gives the text back.
    pub fn into_inner(self) -> (r: String)
        ensures
            r@ == self@,
            !text::blank(r@),
    {
        proof {
            use_type_invariant(&self);
        }
        self.0
    }

    /// Compares two identifiers.
    pub fn same(&self, other: &Self) -> (r: bool)
        ensures
            r == (self@ == other@),
    {
        text::str_eq(self.0.as_str(), other.0.as_str())
    }
}

impl Clone for BridgeId {
    fn clone(&self) -> (r: Self)
        ensures
            r@ == self@,
    {
        proof {
            use_type_invariant(self);
        }
        BridgeId(self.0.clone())
    }
}

/// The identifier of an entertainment area; never blank.
#[derive(Debug, PartialEq, Eq, Hash)]
pub struct AreaId(String);

impl View for AreaId {
    type V = Seq<char>;

    closed spec fn view(&self) -> Seq<char> {
        self.0@
    }
}

impl DeepView for AreaId {
    type V = Seq<char>;

    open spec fn deep_view(&self) -> Seq<char> {
        self@
    }
}

impl AreaId {
    #[verifier::type_invariant]
    spec fn not_blank(&self) -> bool {
        !text::blank(self.0@)
    }

    /// Takes a text that is not blank.
    pub fn new(value: String) -> (r: Result<Self, ValidationError>)
        ensures
            text::blank(value@) ==> r == Err::<Self, ValidationError>(
                (ValidationError::Empty { field: "area id" }),
            ),
            !text::blank(value@) ==> r is Ok && r->Ok_0@ == value@,
    {
        if text::is_blank(value.as_str()) {
            return Err(ValidationError::Empty { field: "area id" });
        }
        Ok(AreaId(value))
    }

    /// The text of the identifier.
    pub fn as_str(&self) -> (r: &str)
        ensures
            r@ == self@,
            !text::blank(r@),
    {
        proof {
            use_type_invariant(self);
        }
        self.0.as_str()
    }

    /// Gives the text back.
    pub fn into_inner(self) -> (r: String)
        ensures
            r@ == self@,
            !text::blank(r@),
    {
        proof {
            use_type_invariant(&self);
        }
        self.0
    }

    /// Compares two identifiers.
    pub fn same(&self, other: &Self) -> (r: bool)
        ensures
            r == (self@ == other@),
    {
        text::str_eq(self.0.as_str(), other.0.as_str())
    }
}

impl Clone for AreaId {
    fn clone(&self) -> (r: Self)
        ensures
            r@ == self@,
    {
        proof {
            use_type_invariant(self);
        }
        AreaId(self.0.clone())
    }
}

/// The identifier of a display; never blank.
#[derive(Debug, PartialEq, Eq, Hash)]
pub struct DisplayId(String);

impl View for DisplayId {
    type V = Seq<char>;

    closed spec fn view(&self) -> Seq<char> {
        self.0@
    }
}

impl DeepView for DisplayId {
    type V = Seq<char>;

    open spec fn deep_view(&self) -> Seq<char> {
        self@
    }
}

impl DisplayId {
    #[verifier::type_invariant]
    spec fn not_blank(&self) -> bool {
        !text::blank(self.0@)
    }

    /// Takes a text that is not blank.
    pub fn new(value: String) -> (r: Result<Self, ValidationError>)
        ensures
            text::blank(value@) ==> r == Err::<Self, ValidationError>(
                (ValidationError::Empty { field: "display id" }),
            ),
            !text::blank(value@) ==> r is Ok && r->Ok_0@ == value@,
    {
        if text::is_blank(value.as_str()) {
            return Err(ValidationError::Empty { field: "display id" });
        }
        Ok(DisplayId(value))
    }

    /// The text of the identifier.
    pub fn as_str(&self) -> (r: &str)
        ensures
            r@ == self@,
            !text::blank(r@),
    {
        proof {
            use_type_invariant(self);
        }
        self.0.as_str()
    }

    /// Gives the text back.
    pub fn into_inner(self) -> (r: String)
        ensures
            r@ == self@,
            !text::blank(r@),
    {
        proof {
            use_type_invariant(&self);
        }
        self.0
    }

    /// Compares two identifiers.
    pub fn same(&self, other: &Self) -> (r: bool)
        ensures
            r == (self@ == other@),
    {
        text::str_eq(self.0.as_str(), other.0.as_str())
    }
}

impl Clone for DisplayId {
    fn clone(&self) -> (r: Self)
        ensures
            r@ == self@,
    {
        proof {
            use_type_invariant(self);
        }
        DisplayId(self.0.clone())
    }
}

/// The identifier of a profile.
#[derive(Clone, Copy, Debug, PartialEq, Eq, Hash, Structural)]
pub struct ProfileId(u128);

impl DeepView for ProfileId {
    type V = ProfileId;

    open spec fn deep_view(&self) -> ProfileId {
        *self
    }
}

impl ProfileId {
    /// The 128 bits of the identifier.
    pub closed spec fn uuid(self) -> u128 {
        self.0
    }

    /// A random identifier. That two of them differ is a matter of chance.
    pub fn new() -> (r: Self)
        ensures
            encoding::is_random_uuid(r.uuid()),
    {
        ProfileId(encoding::random_uuid())
    }

    /// The identifier with these bits.
    pub fn from_uuid(value: u128) -> (r: Self)
        ensures
            r.uuid() == value,
    {
        ProfileId(value)
    }

    /// The bits of the identifier.
    pub fn as_uuid(self) -> (r: u128)
        ensures
            r == self.uuid(),
    {
        self.0
    }

    /// Reads an identifier from text.
    pub fn parse(value: &str) -> (r: Result<Self, String>)
        ensures
            r is Ok <==> encoding::uuid_value(value@) is Some,
            r matches Ok(id) ==> encoding::uuid_value(value@) == Some(id.uuid()),
            r matches Err(reason) ==> reason@ == encoding::uuid_error_text(value@),
    {
        match encoding::parse_uuid(value) {
            Ok(id) => Ok(ProfileId(id)),
            Err(reason) => Err(reason),
        }
    }

    /// Writes the identifier in hyphenated form.
    pub fn to_text(&self) -> (r: String)
        ensures
            r@ == encoding::uuid_text(self.uuid()),
    {
        encoding::format_uuid(self.0)
    }

    /// Two identifiers with the same bits are the same.
    pub proof fn law_same_bits_same_profile(a: Self, b: Self)
        ensures
            a.uuid() == b.uuid() <==> a == b,
    {
    }
}

impl Default for ProfileId {
    fn default() -> (r: Self)
        ensures
            encoding::is_random_uuid(r.uuid()),
    {
        ProfileId::new()
    }
}

/// The bit pattern of one as a single-precision number.
pub const ONE_BITS: u32 = 0x3f80_0000;

/// The bit pattern of negative zero as a single-precision number.
pub const NEGATIVE_ZERO_BITS: u32 = 0x8000_0000;

/// Whether a single-precision bit pattern stands for a number from zero to one.
pub open spec fn is_unit(bits: u32) -> bool {
    bits <= ONE_BITS || bits == NEGATIVE_ZERO_BITS
}

/// The largest integer not above the number that a positive normal bit pattern
/// stands for, kept within 64 bits.
pub open spec fn whole_part(bits: u32) -> nat {
    let exponent = bits as nat / 0x80_0000;
    let significand = 0x80_0000 + bits as nat % 0x80_0000;
    if exponent < 150 {
        significand / vstd::arithmetic::power2::pow2((150 - exponent) as nat)
    } else if exponent < 191 {
        significand * vstd::arithmetic::power2::pow2((exponent - 150) as nat)
    } else {
        u64::MAX as nat
    }
}

/// What an error reports of a number outside the unit interval: zero for a
/// negative number and for no number, the whole part otherwise.
pub open spec fn reported_value(bits: u32) -> nat {
    if bits > 0x7f80_0000 {
        0
    } else {
        whole_part(bits)
    }
}

fn report_value(bits: u32) -> (r: u64)
    requires
        !is_unit(bits),
    ensures
        r == reported_value(bits),
{
    if bits > 0x7f80_0000 {
        return 0;
    }
    let exponent: u32 = bits / 0x80_0000;
    let significand: u64 = 0x80_0000 + (bits % 0x80_0000) as u64;
    if exponent < 150 {
        let shift: u64 = (150 - exponent) as u64;
        proof {
            vstd::bits::lemma_u64_shr_is_div(significand, shift);
        }
        significand >> shift
    } else if exponent < 191 {
        let shift: u64 = (exponent - 150) as u64;
        proof {
            vstd::arithmetic::power2::lemma2_to64();
            vstd::arithmetic::power2::lemma2_to64_rest();
            if shift < 40 {
                vstd::arithmetic::power2::lemma_pow2_strictly_increases(shift as nat, 40);
            }
            assert(significand * vstd::arithmetic::power2::pow2(shift as nat) <= u64::MAX) by (
            nonlinear_arith)
                requires
                    significand < 0x100_0000,
                    vstd::arithmetic::power2::pow2(shift as nat) <= 0x100_0000_0000,
            ;
            vstd::bits::lemma_u64_shl_is_mul(significand, shift);
        }
        significand << shift
    } else {
        u64::MAX
    }
}

/// A point of the unit square; its coordinates are held as single-precision bit
/// patterns.
#[derive(Clone, Copy, Debug)]
pub struct NormalizedPoint {
    x: u32,
    y: u32,
}

/// Whether two numbers of the unit interval, given as bit patterns, are equal:
/// the two zeros are.
pub open spec fn same_coordinate(a: u32, b: u32) -> bool {
    a == b || ((a == 0 || a == NEGATIVE_ZERO_BITS) && (b == 0 || b == NEGATIVE_ZERO_BITS))
}

fn coordinates_equal(a: u32, b: u32) -> (r: bool)
    ensures
        r == same_coordinate(a, b),
{
    a == b || ((a == 0 || a == NEGATIVE_ZERO_BITS) && (b == 0 || b == NEGATIVE_ZERO_BITS))
}

impl PartialEq for NormalizedPoint {
    fn eq(&self, other: &Self) -> (r: bool) {
        coordinates_equal(self.x, other.x) && coordinates_equal(self.y, other.y)
    }
}

impl PartialEqSpecImpl for NormalizedPoint {
    open spec fn obeys_eq_spec() -> bool {
        true
    }

    open spec fn eq_spec(&self, other: &Self) -> bool {
        &&& same_coordinate(self.x_bits(), other.x_bits())
        &&& same_coordinate(self.y_bits(), other.y_bits())
    }
}

impl DeepView for NormalizedPoint {
    type V = NormalizedPoint;

    open spec fn deep_view(&self) -> NormalizedPoint {
        *self
    }
}

impl NormalizedPoint {
    #[verifier::type_invariant]
    spec fn in_unit_square(self) -> bool {
        is_unit(self.x) && is_unit(self.y)
    }

    /// The bit pattern of the horizontal coordinate.
    pub closed spec fn x_bits(self) -> u32 {
        self.x
    }

    /// The bit pattern of the vertical coordinate.
    pub closed spec fn y_bits(self) -> u32 {
        self.y
    }

    /// Takes the bit patterns of two numbers from zero to one.
    pub fn new(x: u32, y: u32) -> (r: Result<Self, ValidationError>)
        ensures
            !is_unit(x) ==> r == Err::<Self, ValidationError>(
                (ValidationError::OutOfRange {
                    field: "x",
                    min: 0,
                    max: 1,
                    value: reported_value(x) as u64,
                }),
            ),
            is_unit(x) && !is_unit(y) ==> r == Err::<Self, ValidationError>(
                (ValidationError::OutOfRange {
                    field: "y",
                    min: 0,
                    max: 1,
                    value: reported_value(y) as u64,
                }),
            ),
            is_unit(x) && is_unit(y) ==> r is Ok && r->Ok_0.x_bits() == x && r->Ok_0.y_bits() == y,
    {
        match validate_unit("x", x) {
            Err(error) => return Err(error),
            Ok(()) => {},
        }
        match validate_unit("y", y) {
            Err(error) => return Err(error),
            Ok(()) => {},
        }
        Ok(NormalizedPoint { x, y })
    }

    /// The bit pattern of the horizontal coordinate.
    pub fn x(self) -> (r: u32)
        ensures
            r == self.x_bits(),
            is_unit(r),
    {
        proof {
            use_type_invariant(self);
        }
        self.x
    }

    /// The bit pattern of the vertical coordinate.
    pub fn y(self) -> (r: u32)
        ensures
            r == self.y_bits(),
            is_unit(r),
    {
        proof {
            use_type_invariant(self);
        }
        self.y
    }
}

fn validate_unit(field: &'static str, value: u32) -> (r: Result<(), ValidationError>)
    ensures
        is_unit(value) ==> r == Ok::<(), ValidationError>(()),
        !is_unit(value) ==> r == Err::<(), ValidationError>(
            (ValidationError::OutOfRange {
                field,
                min: 0,
                max: 1,
                value: reported_value(value) as u64,
            }),
        ),
{
    if value > ONE_BITS && value != NEGATIVE_ZERO_BITS {
        return Err(ValidationError::OutOfRange { field, min: 0, max: 1, value: report_value(value) });
    }
    Ok(())
}

/// A brightness in percent.
#[derive(Clone, Copy, Debug, PartialEq, Eq, Structural)]
pub struct Brightness(u8);

impl Brightness {
    #[verifier::type_invariant]
    spec fn bounded(self) -> bool {
        self.0 <= MAX_BRIGHTNESS
    }

    /// The percentage.
    pub closed spec fn percent(self) -> u8 {
        self.0
    }

    /// Takes a percentage.
    pub fn new(value: u8) -> (r: Result<Self, ValidationError>)
        ensures
            value <= MAX_BRIGHTNESS ==> r is Ok && r->Ok_0.percent() == value,
            value > MAX_BRIGHTNESS ==> r == Err::<Self, ValidationError>(
                (ValidationError::OutOfRange {
                    field: "brightness",
                    min: 0,
                    max: MAX_BRIGHTNESS as u64,
                    value: value as u64,
                }),
            ),
    {
        if value > MAX_BRIGHTNESS {
            return Err(
                ValidationError::OutOfRange {
                    field: "brightness",
                    min: 0,
                    max: MAX_BRIGHTNESS as u64,
                    value: value as u64,
                },
            );
        }
        Ok(Brightness(value))
    }

    /// The percentage.
    pub fn get(self) -> (r: u8)
        ensures
            r == self.percent(),
            r <= MAX_BRIGHTNESS,
    {
        proof {
            use_type_invariant(self);
        }
        self.0
    }
}

impl Default for Brightness {
    fn default() -> (r: Self)
        ensures
            r.percent() == 80,
    {
        Brightness(80)
    }
}

/// The display language.
#[derive(Clone, Copy, Debug, PartialEq, Eq, Structural)]
pub enum Language {
    System,
    En,
    De,
}

impl DeepView for Language {
    type V = Language;

    open spec fn deep_view(&self) -> Language {
        *self
    }
}

impl Default for Language {
    fn default() -> (r: Self)
        ensures
            r == Language::System,
    {
        Language::System
    }
}

/// Where frames come from.
#[derive(Clone, Copy, Debug, PartialEq, Eq, Structural)]
pub enum CaptureBackend {
    PortalPipewire,
    Grim,
}

impl DeepView for CaptureBackend {
    type V = CaptureBackend;

    open spec fn deep_view(&self) -> CaptureBackend {
        *self
    }
}

impl Default for CaptureBackend {
    fn default() -> (r: Self)
        ensures
            r == CaptureBackend::PortalPipewire,
    {
        CaptureBackend::PortalPipewire
    }
}

/// What the lights follow.
#[derive(Clone, Copy, Debug, PartialEq, Eq, Structural)]
pub enum SyncMode {
    Video,
    Game,
    Music,
    Scene,
}

impl DeepView for SyncMode {
    type V = SyncMode;

    open spec fn deep_view(&self) -> SyncMode {
        *self
    }
}

impl Default for SyncMode {
    fn default() -> (r: Self)
        ensures
            r == SyncMode::Video,
    {
        SyncMode::Video
    }
}

/// How strongly the lights follow.
#[derive(Clone, Copy, Debug, PartialEq, Eq, Structural)]
pub enum Intensity {
    Subtle,
    Moderate,
    High,
    Extreme,
}

impl DeepView for Intensity {
    type V = Intensity;

    open spec fn deep_view(&self) -> Intensity {
        *self
    }
}

impl Default for Intensity {
    fn default() -> (r: Self)
        ensures
            r == Intensity::Moderate,
    {
        Intensity::Moderate
    }
}

/// How the lights follow the screen.
#[derive(Clone, Copy, Debug, PartialEq, Eq, Structural)]
pub struct SyncSettings {
    pub mode: SyncMode,
    pub intensity: Intensity,
    pub brightness: Brightness,
    pub audio_reactive: bool,
}

impl DeepView for SyncSettings {
    type V = SyncSettings;

    open spec fn deep_view(&self) -> SyncSettings {
        *self
    }
}

impl Default for SyncSettings {
    fn default() -> (r: Self)
        ensures
            r.mode == SyncMode::Video,
            r.intensity == Intensity::Moderate,
            r.brightness.percent() == 80,
            r.audio_reactive == false,
    {
        SyncSettings {
            mode: SyncMode::Video,
            intensity: Intensity::Moderate,
            brightness: Brightness::default(),
            audio_reactive: false,
        }
    }
}

/// The bridge that the lights are driven through.
#[derive(Debug, PartialEq, Eq)]
pub struct BridgeConfiguration {
    pub id: BridgeId,
    pub host: String,
    pub name: Option<String>,
}

/// The mathematical value of [`BridgeConfiguration`].
#[verifier::ext_equal]
pub struct BridgeConfigurationView {
    pub id: Seq<char>,
    pub host: Seq<char>,
    pub name: Option<Seq<char>>,
}

impl DeepView for BridgeConfiguration {
    type V = BridgeConfigurationView;

    open spec fn deep_view(&self) -> BridgeConfigurationView {
        BridgeConfigurationView {
            id: self.id.deep_view(),
            host: self.host.deep_view(),
            name: self.name.deep_view(),
        }
    }
}

impl Clone for BridgeConfiguration {
    fn clone(&self) -> (r: Self)
        ensures
            r.deep_view() == self.deep_view(),
    {
        BridgeConfiguration {
            id: self.id.clone(),
            host: self.host.clone(),
            name: self.name.clone(),
        }
    }
}

impl BridgeConfiguration {
    /// A bridge needs a host.
    pub fn validate(&self) -> (r: Result<(), ValidationError>)
        ensures
            r == bridge_validation(self.deep_view()),
    {
        if text::is_blank(self.host.as_str()) {
            return Err(ValidationError::Empty { field: "bridge host" });
        }
        Ok(())
    }
}

/// What validating a bridge gives.
pub open spec fn bridge_validation(bridge: BridgeConfigurationView) -> Result<(), ValidationError> {
    if text::blank(bridge.host) {
        Err(ValidationError::Empty { field: "bridge host" })
    } else {
        Ok(())
    }
}

/// A channel of an entertainment area.
#[derive(Debug, PartialEq)]
pub struct EntertainmentChannel {
    pub id: u16,
    pub name: Option<String>,
    pub position: NormalizedPoint,
}

/// The mathematical value of [`EntertainmentChannel`].
#[verifier::ext_equal]
pub struct EntertainmentChannelView {
    pub id: u16,
    pub name: Option<Seq<char>>,
    pub position: NormalizedPoint,
}

impl DeepView for EntertainmentChannel {
    type V = EntertainmentChannelView;

    open spec fn deep_view(&self) -> EntertainmentChannelView {
        EntertainmentChannelView {
            id: self.id,
            name: self.name.deep_view(),
            position: self.position,
        }
    }
}

impl Clone for EntertainmentChannel {
    fn clone(&self) -> (r: Self)
        ensures
            r.deep_view() == self.deep_view(),
    {
        EntertainmentChannel {
            id: self.id,
            name: self.name.clone(),
            position: self.position,
        }
    }
}

/// An entertainment area and its channels.
#[derive(Debug, PartialEq)]
pub struct EntertainmentArea {
    pub id: AreaId,
    pub name: String,
    pub channels: Vec<EntertainmentChannel>,
}

/// The mathematical value of [`EntertainmentArea`].
#[verifier::ext_equal]
pub struct EntertainmentAreaView {
    pub id: Seq<char>,
    pub name: Seq<char>,
    pub channels: Seq<EntertainmentChannelView>,
}

impl DeepView for EntertainmentArea {
    type V = EntertainmentAreaView;

    open spec fn deep_view(&self) -> EntertainmentAreaView {
        EntertainmentAreaView {
            id: self.id.deep_view(),
            name: self.name.deep_view(),
            channels: self.channels.deep_view(),
        }
    }
}

impl Clone for EntertainmentArea {
    fn clone(&self) -> (r: Self)
        ensures
            r.deep_view() == self.deep_view(),
    {
        EntertainmentArea {
            id: self.id.clone(),
            name: self.name.clone(),
            channels: self.channels.clone(),
        }
    }
}

/// Whether the channel at a position repeats the identifier of an earlier one.
pub open spec fn repeats_channel(channels: Seq<EntertainmentChannelView>, i: int) -> bool {
    exists|j: int| 0 <= j < i && (#[trigger] channels[j]).id == channels[i].id
}

/// Whether a result reports the first channel that repeats an identifier, if any does.
pub open spec fn channels_checked(
    channels: Seq<EntertainmentChannelView>,
    r: Result<(), ValidationError>,
) -> bool {
    ||| (r is Ok && forall|i: int| 0 <= i < channels.len() ==> !#[trigger] repeats_channel(
        channels,
        i,
    ))
    ||| (exists|i: int|
        0 <= i < channels.len() && #[trigger] repeats_channel(channels, i) && (forall|j: int|
            0 <= j < i ==> !#[trigger] repeats_channel(channels, j)) && r == Err::<
            (),
            ValidationError,
        >(ValidationError::DuplicateChannel(channels[i].id)))
}

impl EntertainmentArea {
    /// An area needs a name, and its channels differ in their identifiers.
    pub fn validate(&self) -> (r: Result<(), ValidationError>)
        ensures
            text::blank(self.deep_view().name) ==> r == Err::<(), ValidationError>(
                (ValidationError::Empty { field: "entertainment area name" }),
            ),
            !text::blank(self.deep_view().name) ==> channels_checked(self.deep_view().channels, r),
    {
        if text::is_blank(self.name.as_str()) {
            return Err(ValidationError::Empty { field: "entertainment area name" });
        }
        let ghost channels = self.deep_view().channels;
        let mut i: usize = 0;
        while i < self.channels.len()
            invariant
                i <= self.channels.len(),
                channels == self.deep_view().channels,
                !text::blank(self.deep_view().name),
                forall|k: int| 0 <= k < i ==> !#[trigger] repeats_channel(channels, k),
            decreases self.channels.len() - i,
        {
            let mut j: usize = 0;
            while j < i
                invariant
                    j <= i < self.channels.len(),
                    channels == self.deep_view().channels,
                    !text::blank(self.deep_view().name),
                    forall|k: int| 0 <= k < i ==> !#[trigger] repeats_channel(channels, k),
                    forall|k: int| 0 <= k < j ==> (#[trigger] channels[k]).id != channels[i as int].id,
                decreases i - j,
            {
                if self.channels[j].id == self.channels[i].id {
                    assert(channels[j as int].id == channels[i as int].id);
                    assert(repeats_channel(channels, i as int));
                    return Err(ValidationError::DuplicateChannel(self.channels[i].id));
                }
                j += 1;
            }
            i += 1;
        }
        Ok(())
    }
}

/// A named set of settings.
#[derive(Debug, PartialEq)]
pub struct Profile {
    pub id: ProfileId,
    pub name: String,
    pub settings: SyncSettings,
    pub display: Option<DisplayId>,
    pub area: Option<AreaId>,
}

/// The mathematical value of [`Profile`].
#[verifier::ext_equal]
pub struct ProfileView {
    pub id: ProfileId,
    pub name: Seq<char>,
    pub settings: SyncSettings,
    pub display: Option<Seq<char>>,
    pub area: Option<Seq<char>>,
}

impl DeepView for Profile {
    type V = ProfileView;

    open spec fn deep_view(&self) -> ProfileView {
        ProfileView {
            id: self.id,
            name: self.name.deep_view(),
            settings: self.settings,
            display: self.display.deep_view(),
            area: self.area.deep_view(),
        }
    }
}

impl Clone for Profile {
    fn clone(&self) -> (r: Self)
        ensures
            r.deep_view() == self.deep_view(),
    {
        Profile {
            id: self.id,
            name: self.name.clone(),
            settings: self.settings,
            display: self.display.clone(),
            area: self.area.clone(),
        }
    }
}

/// What validating a profile gives.
pub open spec fn profile_validation(profile: ProfileView) -> Result<(), ValidationError> {
    if text::blank(profile.name) {
        Err(ValidationError::Empty { field: "profile name" })
    } else {
        Ok(())
    }
}

impl Profile {
    /// A profile needs a name.
    pub fn validate(&self) -> (r: Result<(), ValidationError>)
        ensures
            r == profile_validation(self.deep_view()),
    {
        if text::is_blank(self.name.as_str()) {
            return Err(ValidationError::Empty { field: "profile name" });
        }
        Ok(())
    }
}

/// The configuration of an installation.
#[derive(Debug, PartialEq)]
pub struct AppConfig {
    pub schema_version: u32,
    pub revision: u64,
    pub language: Language,
    pub capture_backend: CaptureBackend,
    pub sync: SyncSettings,
    pub restore_on_stop: bool,
    pub launch_at_login: bool,
    pub auto_start_sync: bool,
    pub selected_display: Option<DisplayId>,
    pub selected_area: Option<AreaId>,
    pub bridge: Option<BridgeConfiguration>,
    pub profiles: Vec<Profile>,
    pub active_profile: Option<ProfileId>,
}

/// The mathematical value of [`AppConfig`].
#[verifier::ext_equal]
pub struct AppConfigView {
    pub schema_version: u32,
    pub revision: u64,
    pub language: Language,
    pub capture_backend: CaptureBackend,
    pub sync: SyncSettings,
    pub restore_on_stop: bool,
    pub launch_at_login: bool,
    pub auto_start_sync: bool,
    pub selected_display: Option<Seq<char>>,
    pub selected_area: Option<Seq<char>>,
    pub bridge: Option<BridgeConfigurationView>,
    pub profiles: Seq<ProfileView>,
    pub active_profile: Option<ProfileId>,
}

impl DeepView for AppConfig {
    type V = AppConfigView;

    open spec fn deep_view(&self) -> AppConfigView {
        AppConfigView {
            schema_version: self.schema_version,
            revision: self.revision,
            language: self.language,
            capture_backend: self.capture_backend,
            sync: self.sync,
            restore_on_stop: self.restore_on_stop,
            launch_at_login: self.launch_at_login,
            auto_start_sync: self.auto_start_sync,
            selected_display: self.selected_display.deep_view(),
            selected_area: self.selected_area.deep_view(),
            bridge: self.bridge.deep_view(),
            profiles: self.profiles.deep_view(),
            active_profile: self.active_profile,
        }
    }
}

impl Clone for AppConfig {
    fn clone(&self) -> (r: Self)
        ensures
            r.deep_view() == self.deep_view(),
    {
        AppConfig {
            schema_version: self.schema_version,
            revision: self.revision,
            language: self.language,
            capture_backend: self.capture_backend,
            sync: self.sync,
            restore_on_stop: self.restore_on_stop,
            launch_at_login: self.launch_at_login,
            auto_start_sync: self.auto_start_sync,
            selected_display: self.selected_display.clone(),
            selected_area: self.selected_area.clone(),
            bridge: self.bridge.clone(),
            profiles: self.profiles.clone(),
            active_profile: self.active_profile,
        }
    }
}

/// Whether a profile with this identifier is among the first `n`.
pub open spec fn profile_among(profiles: Seq<ProfileView>, id: ProfileId, n: int) -> bool {
    exists|j: int| 0 <= j < n && (#[trigger] profiles[j]).id == id
}

/// What is first wrong among the first `n` profiles: a blank name, or an
/// identifier that an earlier profile has.
pub open spec fn profiles_validation(profiles: Seq<ProfileView>, n: nat) -> Result<
    (),
    ValidationError,
>
    decreases n,
{
    if n == 0 {
        Ok(())
    } else {
        let last = profiles[n - 1];
        match profiles_validation(profiles, (n - 1) as nat) {
            Err(error) => Err(error),
            Ok(()) => match profile_validation(last) {
                Err(error) => Err(error),
                Ok(()) => if profile_among(profiles, last.id, n - 1) {
                    Err(ValidationError::DuplicateProfile(last.id))
                } else {
                    Ok(())
                },
            },
        }
    }
}

/// What validating a configuration gives: the first of the schema version, the
/// bridge, the profiles in turn and the active profile that is not acceptable.
pub open spec fn config_validation(config: AppConfigView) -> Result<(), ValidationError> {
    if config.schema_version != CURRENT_SCHEMA_VERSION {
        Err(ValidationError::UnsupportedSchema(config.schema_version))
    } else if config.bridge is Some && bridge_validation(config.bridge->Some_0) is Err {
        bridge_validation(config.bridge->Some_0)
    } else if profiles_validation(config.profiles, config.profiles.len()) is Err {
        profiles_validation(config.profiles, config.profiles.len())
    } else if config.active_profile is Some && !profile_among(
        config.profiles,
        config.active_profile->Some_0,
        config.profiles.len() as int,
    ) {
        Err(ValidationError::UnknownActiveProfile(config.active_profile->Some_0))
    } else {
        Ok(())
    }
}

/// Whether no two profiles share an identifier.
pub open spec fn distinct_profiles(profiles: Seq<ProfileView>) -> bool {
    forall|i: int, j: int|
        0 <= i < j < profiles.len() ==> (#[trigger] profiles[i]).id != (#[trigger] profiles[j]).id
}

/// A configuration that is acceptable as a whole.
pub open spec fn valid_config(config: AppConfigView) -> bool {
    &&& config.schema_version == CURRENT_SCHEMA_VERSION
    &&& config.bridge matches Some(bridge) ==> !text::blank(bridge.host)
    &&& forall|i: int|
        0 <= i < config.profiles.len() ==> !text::blank((#[trigger] config.profiles[i]).name)
    &&& distinct_profiles(config.profiles)
    &&& config.active_profile matches Some(id) ==> profile_among(
        config.profiles,
        id,
        config.profiles.len() as int,
    )
}

proof fn lemma_profiles_validation(profiles: Seq<ProfileView>, n: nat)
    requires
        n <= profiles.len(),
    ensures
        profiles_validation(profiles, n) is Ok <==> {
            &&& forall|i: int| 0 <= i < n ==> !text::blank((#[trigger] profiles[i]).name)
            &&& forall|i: int, j: int|
                0 <= i < j < n ==> (#[trigger] profiles[i]).id != (#[trigger] profiles[j]).id
        },
    decreases n,
{
    if n > 0 {
        lemma_profiles_validation(profiles, (n - 1) as nat);
        let last = profiles[n - 1];
        if profiles_validation(profiles, n) is Ok {
            assert forall|i: int, j: int| 0 <= i < j < n implies (#[trigger] profiles[i]).id != (
            #[trigger] profiles[j]).id by {
                if j == n - 1 {
                    assert(!profile_among(profiles, last.id, n - 1));
                }
            }
        } else if profile_among(profiles, last.id, n - 1) {
            let j = choose|j: int| 0 <= j < n - 1 && (#[trigger] profiles[j]).id == last.id;
            assert(profiles[j].id == profiles[n - 1].id);
        }
    }
}

/// Once the first profiles fail, all of them do, and in the same way.
proof fn lemma_profiles_validation_sticks(profiles: Seq<ProfileView>, n: nat, m: nat)
    requires
        n <= m <= profiles.len(),
        profiles_validation(profiles, n) is Err,
    ensures
        profiles_validation(profiles, m) == profiles_validation(profiles, n),
    decreases m - n,
{
    if n < m {
        lemma_profiles_validation_sticks(profiles, n, (m - 1) as nat);
    }
}

/// Validation passes on exactly the configurations that are acceptable as a whole.
pub proof fn law_validation_passes_iff_valid(config: AppConfigView)
    ensures
        config_validation(config) is Ok <==> valid_config(config),
{
    lemma_profiles_validation(config.profiles, config.profiles.len());
}

/// The configuration of a fresh installation.
pub open spec fn default_config(config: AppConfigView) -> bool {
    &&& config.schema_version == CURRENT_SCHEMA_VERSION
    &&& config.revision == 0
    &&& config.language == Language::System
    &&& config.capture_backend == CaptureBackend::PortalPipewire
    &&& config.sync.mode == SyncMode::Video
    &&& config.sync.intensity == Intensity::Moderate
    &&& config.sync.brightness.percent() == 80
    &&& !config.sync.audio_reactive
    &&& config.restore_on_stop
    &&& !config.launch_at_login
    &&& !config.auto_start_sync
    &&& config.selected_display is None
    &&& config.selected_area is None
    &&& config.bridge is None
    &&& config.profiles.len() == 0
    &&& config.active_profile is None
}

impl Default for AppConfig {
    fn default() -> (r: Self)
        ensures
            default_config(r.deep_view()),
    {
        AppConfig {
            schema_version: CURRENT_SCHEMA_VERSION,
            revision: 0,
            language: Language::System,
            capture_backend: CaptureBackend::PortalPipewire,
            sync: SyncSettings::default(),
            restore_on_stop: true,
            launch_at_login: false,
            auto_start_sync: false,
            selected_display: None,
            selected_area: None,
            bridge: None,
            profiles: Vec::new(),
            active_profile: None,
        }
    }
}

/// The configuration of a fresh installation is acceptable.
pub proof fn law_default_config_is_valid(config: AppConfigView)
    requires
        default_config(config),
    ensures
        valid_config(config),
{
}

/// A change of some of the fields of a configuration; a field that is absent stays.
#[derive(Debug, PartialEq)]
pub struct ConfigUpdate {
    pub language: Option<Language>,
    pub capture_backend: Option<CaptureBackend>,
    pub sync: Option<SyncSettings>,
    pub restore_on_stop: Option<bool>,
    pub launch_at_login: Option<bool>,
    pub auto_start_sync: Option<bool>,
    pub selected_display: Option<Option<DisplayId>>,
    pub selected_area: Option<Option<AreaId>>,
    pub bridge: Option<Option<BridgeConfiguration>>,
}

/// The mathematical value of [`ConfigUpdate`].
#[verifier::ext_equal]
pub struct ConfigUpdateView {
    pub language: Option<Language>,
    pub capture_backend: Option<CaptureBackend>,
    pub sync: Option<SyncSettings>,
    pub restore_on_stop: Option<bool>,
    pub launch_at_login: Option<bool>,
    pub auto_start_sync: Option<bool>,
    pub selected_display: Option<Option<Seq<char>>>,
    pub selected_area: Option<Option<Seq<char>>>,
    pub bridge: Option<Option<BridgeConfigurationView>>,
}

impl DeepView for ConfigUpdate {
    type V = ConfigUpdateView;

    open spec fn deep_view(&self) -> ConfigUpdateView {
        ConfigUpdateView {
            language: self.language,
            capture_backend: self.capture_backend,
            sync: self.sync,
            restore_on_stop: self.restore_on_stop,
            launch_at_login: self.launch_at_login,
            auto_start_sync: self.auto_start_sync,
            selected_display: self.selected_display.deep_view(),
            selected_area: self.selected_area.deep_view(),
            bridge: self.bridge.deep_view(),
        }
    }
}

impl Clone for ConfigUpdate {
    fn clone(&self) -> (r: Self)
        ensures
            r.deep_view() == self.deep_view(),
    {
        ConfigUpdate {
            language: self.language,
            capture_backend: self.capture_backend,
            sync: self.sync,
            restore_on_stop: self.restore_on_stop,
            launch_at_login: self.launch_at_login,
            auto_start_sync: self.auto_start_sync,
            selected_display: self.selected_display.clone(),
            selected_area: self.selected_area.clone(),
            bridge: self.bridge.clone(),
        }
    }
}

impl Default for ConfigUpdate {
    fn default() -> (r: Self)
        ensures
            r.deep_view() == empty_update(),
    {
        ConfigUpdate {
            language: None,
            capture_backend: None,
            sync: None,
            restore_on_stop: None,
            launch_at_login: None,
            auto_start_sync: None,
            selected_display: None,
            selected_area: None,
            bridge: None,
        }
    }
}

/// The update that changes no field.
pub open spec fn empty_update() -> ConfigUpdateView {
    ConfigUpdateView {
        language: None,
        capture_backend: None,
        sync: None,
        restore_on_stop: None,
        launch_at_login: None,
        auto_start_sync: None,
        selected_display: None,
        selected_area: None,
        bridge: None,
    }
}

/// The new value where there is one, the old value otherwise.
pub open spec fn chosen<T>(value: Option<T>, default: T) -> T {
    match value {
        Some(v) => v,
        None => default,
    }
}

/// The next revision; the last one repeats.
pub open spec fn next_revision(revision: u64) -> u64 {
    if revision == u64::MAX {
        u64::MAX
    } else {
        (revision + 1) as u64
    }
}

/// A configuration with an update applied.
pub open spec fn updated_config(config: AppConfigView, update: ConfigUpdateView) -> AppConfigView {
    AppConfigView {
        language: chosen(update.language, config.language),
        capture_backend: chosen(update.capture_backend, config.capture_backend),
        sync: chosen(update.sync, config.sync),
        restore_on_stop: chosen(update.restore_on_stop, config.restore_on_stop),
        launch_at_login: chosen(update.launch_at_login, config.launch_at_login),
        auto_start_sync: chosen(update.auto_start_sync, config.auto_start_sync),
        selected_display: chosen(update.selected_display, config.selected_display),
        selected_area: chosen(update.selected_area, config.selected_area),
        bridge: chosen(update.bridge, config.bridge),
        revision: next_revision(config.revision),
        ..config
    }
}

impl AppConfig {
    /// Whether the configuration is acceptable, or what is first wrong with it.
    pub fn validate(&self) -> (r: Result<(), ValidationError>)
        ensures
            r == config_validation(self.deep_view()),
            r is Ok <==> valid_config(self.deep_view()),
    {
        proof {
            law_validation_passes_iff_valid(self.deep_view());
        }
        if self.schema_version != CURRENT_SCHEMA_VERSION {
            return Err(ValidationError::UnsupportedSchema(self.schema_version));
        }
        if let Some(bridge) = &self.bridge {
            match bridge.validate() {
                Err(error) => return Err(error),
                Ok(()) => {},
            }
        }
        let ghost profiles = self.deep_view().profiles;
        let mut i: usize = 0;
        while i < self.profiles.len()
            invariant
                i <= self.profiles.len(),
                profiles == self.profiles.deep_view(),
                profiles == self.deep_view().profiles,
                self.schema_version == CURRENT_SCHEMA_VERSION,
                self.deep_view().bridge is Some ==> bridge_validation(
                    self.deep_view().bridge->Some_0,
                ) is Ok,
                profiles_validation(profiles, i as nat) is Ok,
                config_validation(self.deep_view()) is Ok <==> valid_config(self.deep_view()),
            decreases self.profiles.len() - i,
        {
            assert(profiles[i as int] == self.profiles[i as int].deep_view());
            match self.profiles[i].validate() {
                Err(error) => {
                    proof {
                        lemma_profiles_validation_sticks(
                            profiles,
                            (i + 1) as nat,
                            profiles.len(),
                        );
                    }
                    return Err(error);
                },
                Ok(()) => {},
            }
            if has_profile(&self.profiles, self.profiles[i].id, i) {
                proof {
                    lemma_profiles_validation_sticks(profiles, (i + 1) as nat, profiles.len());
                }
                return Err(ValidationError::DuplicateProfile(self.profiles[i].id));
            }
            i += 1;
        }
        if let Some(active) = self.active_profile {
            if !has_profile(&self.profiles, active, self.profiles.len()) {
                return Err(ValidationError::UnknownActiveProfile(active));
            }
        }
        Ok(())
    }

    /// Applies an update as a whole, or leaves the configuration as it is.
    pub fn apply_update(&mut self, update: ConfigUpdate) -> (r: Result<(), ValidationError>)
        ensures
            r == config_validation(updated_config(old(self).deep_view(), update.deep_view())),
            r is Ok ==> final(self).deep_view() == updated_config(
                old(self).deep_view(),
                update.deep_view(),
            ) && valid_config(final(self).deep_view()),
            r is Err ==> *final(self) == *old(self),
    {
        let current: AppConfig = self.clone();
        let next: AppConfig = AppConfig {
            schema_version: current.schema_version,
            revision: current.revision.saturating_add(1),
            language: or_keep(update.language, current.language),
            capture_backend: or_keep(update.capture_backend, current.capture_backend),
            sync: or_keep(update.sync, current.sync),
            restore_on_stop: or_keep(update.restore_on_stop, current.restore_on_stop),
            launch_at_login: or_keep(update.launch_at_login, current.launch_at_login),
            auto_start_sync: or_keep(update.auto_start_sync, current.auto_start_sync),
            selected_display: or_keep(update.selected_display, current.selected_display),
            selected_area: or_keep(update.selected_area, current.selected_area),
            bridge: or_keep(update.bridge, current.bridge),
            profiles: current.profiles,
            active_profile: current.active_profile,
        };
        assert(next.deep_view() == updated_config(self.deep_view(), update.deep_view()));
        match next.validate() {
            Err(error) => Err(error),
            Ok(()) => {
                *self = next;
                Ok(())
            },
        }
    }
}

fn or_keep<T>(value: Option<T>, current: T) -> (r: T)
    ensures
        r == chosen(value, current),
{
    match value {
        Some(v) => v,
        None => current,
    }
}

/// Whether one of the first `n` profiles has this identifier.
pub fn has_profile(profiles: &Vec<Profile>, id: ProfileId, n: usize) -> (r: bool)
    requires
        n <= profiles.len(),
    ensures
        r == profile_among(profiles.deep_view(), id, n as int),
{
    let mut i: usize = 0;
    while i < n
        invariant
            i <= n <= profiles.len(),
            !profile_among(profiles.deep_view(), id, i as int),
        decreases n - i,
    {
        assert(profiles.deep_view()[i as int].id == profiles[i as int].id);
        if profiles[i].id == id {
            return true;
        }
        i += 1;
    }
    false
}

/// An update that changes nothing only moves the revision on.
pub proof fn law_empty_update_keeps_settings(config: AppConfigView)
    ensures
        updated_config(config, empty_update()) == (AppConfigView {
            revision: next_revision(config.revision),
            ..config
        }),
{
}

/// Of two updates in a row, the later one decides each field that it names, and
/// the earlier one the others.
pub proof fn law_updates_compose(
    config: AppConfigView,
    first: ConfigUpdateView,
    second: ConfigUpdateView,
)
    ensures
        ({
            let both = updated_config(updated_config(config, first), second);
            let once = updated_config(config, overlaid_update(first, second));
            both == (AppConfigView { revision: next_revision(once.revision), ..once })
        }),
{
}

/// The update that does what two updates in a row do.
pub open spec fn overlaid_update(
    first: ConfigUpdateView,
    second: ConfigUpdateView,
) -> ConfigUpdateView {
    ConfigUpdateView {
        language: overlaid(first.language, second.language),
        capture_backend: overlaid(first.capture_backend, second.capture_backend),
        sync: overlaid(first.sync, second.sync),
        restore_on_stop: overlaid(first.restore_on_stop, second.restore_on_stop),
        launch_at_login: overlaid(first.launch_at_login, second.launch_at_login),
        auto_start_sync: overlaid(first.auto_start_sync, second.auto_start_sync),
        selected_display: overlaid(first.selected_display, second.selected_display),
        selected_area: overlaid(first.selected_area, second.selected_area),
        bridge: overlaid(first.bridge, second.bridge),
    }
}

/// The second value where there is one, the first otherwise.
pub open spec fn overlaid<T>(first: Option<T>, second: Option<T>) -> Option<T> {
    match second {
        Some(v) => Some(v),
        None => first,
    }
}

} // verus!

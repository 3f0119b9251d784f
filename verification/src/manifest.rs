//! The plugin manifest descriptor: the static file the host reads when it
//! installs a plugin. Wire keys are PascalCase words, with the acronym
//! overrides `SDKVersion`, `URL`, `UUID` and `OS`; boolean flags and the
//! window size have documented defaults that decoding substitutes when the
//! key is absent.

use vstd::prelude::*;

use crate::codec::{
    decode_list, encode_list, lemma_list_round_trip, spec_decode_list, spec_encode_list,
    JsonCodec,
};
use crate::json::{
    bool_or, jv_entries, jv_seq, lookup, lookup_field, opt_str, opt_str_json, put, put_field,
    put_opt, req_str, req_u32, res_view, spec_bool_or, spec_opt_str, spec_req_str, spec_req_u32,
    str_eq, DecodeError, ErrV, Json, JsonV,
};

verus! {

broadcast use crate::json::lemma_lookup_push;

/// An operating system the platform registry knows: the only two values a
/// manifest's `OS` entries may name.
#[derive(Debug, PartialEq, Eq, Clone, Copy)]
pub enum Platform {
    Mac,
    Windows,
}

impl DeepView for Platform {
    type V = Platform;

    open spec fn deep_view(&self) -> Platform {
        *self
    }
}

impl View for Platform {
    type V = Platform;

    open spec fn view(&self) -> Platform {
        *self
    }
}

/// The wire form of a platform: its lowercase name.
pub open spec fn spec_encode_platform(p: Platform) -> JsonV {
    match p {
        Platform::Mac => JsonV::Str("mac"@),
        Platform::Windows => JsonV::Str("windows"@),
    }
}

/// A platform decodes from exactly the strings `mac` and `windows`.
pub open spec fn spec_decode_platform(j: JsonV) -> Result<Platform, ErrV> {
    match j {
        JsonV::Str(s) => if s == "mac"@ {
            Ok(Platform::Mac)
        } else if s == "windows"@ {
            Ok(Platform::Windows)
        } else {
            Err(ErrV::TypeMismatch("Platform"@))
        },
        _ => Err(ErrV::TypeMismatch("Platform"@)),
    }
}

impl Platform {
    /// Encode to the lowercase platform name.
    pub fn encode(&self) -> (r: Json)
        ensures
            r.deep_view() == spec_encode_platform(*self),
    {
        match self {
            Platform::Mac => Json::Str("mac".to_owned()),
            Platform::Windows => Json::Str("windows".to_owned()),
        }
    }

    /// Decode from the lowercase platform name.
    pub fn decode(j: &Json) -> (r: Result<Platform, DecodeError>)
        ensures
            res_view(r) == spec_decode_platform(j.deep_view()),
    {
        match j {
            Json::Str(s) => {
                if str_eq(s.as_str(), "mac") {
                    Ok(Platform::Mac)
                } else if str_eq(s.as_str(), "windows") {
                    Ok(Platform::Windows)
                } else {
                    Err(DecodeError::TypeMismatch("Platform".to_owned()))
                }
            },
            _ => Err(DecodeError::TypeMismatch("Platform".to_owned())),
        }
    }
}

/// A platform survives the round trip through its wire form.
pub proof fn lemma_platform_round_trip(p: Platform)
    ensures
        spec_decode_platform(spec_encode_platform(p)) == Ok::<Platform, ErrV>(p),
{
    reveal_strlit("mac");
    reveal_strlit("windows");
    assert("mac"@.len() == 3);
    assert("windows"@.len() == 7);
}

/// The numeric code of a device kind, as the host's device registry
/// assigns it.
#[derive(Debug, PartialEq, Eq, Clone, Copy)]
pub struct DeviceType(pub u32);

impl DeepView for DeviceType {
    type V = DeviceType;

    open spec fn deep_view(&self) -> DeviceType {
        *self
    }
}

impl View for DeviceType {
    type V = DeviceType;

    open spec fn view(&self) -> DeviceType {
        *self
    }
}

/// The wire form of a device type: its numeric code.
pub open spec fn spec_encode_device_type(d: DeviceType) -> JsonV {
    JsonV::Int(d.0 as int)
}

/// A device type decodes from an integer in `u32` range.
pub open spec fn spec_decode_device_type(j: JsonV) -> Result<DeviceType, ErrV> {
    match j {
        JsonV::Int(i) => if 0 <= i <= u32::MAX {
            Ok(DeviceType(i as u32))
        } else {
            Err(ErrV::TypeMismatch("DeviceType"@))
        },
        _ => Err(ErrV::TypeMismatch("DeviceType"@)),
    }
}

impl DeviceType {
    /// Encode to the numeric device code.
    pub fn encode(&self) -> (r: Json)
        ensures
            r.deep_view() == spec_encode_device_type(*self),
    {
        Json::Int(self.0 as i64)
    }

    /// Decode from the numeric device code.
    pub fn decode(j: &Json) -> (r: Result<DeviceType, DecodeError>)
        ensures
            res_view(r) == spec_decode_device_type(j.deep_view()),
    {
        match j {
            Json::Int(i) => {
                let iv: i64 = *i;
                if 0 <= iv && iv <= u32::MAX as i64 {
                    Ok(DeviceType(iv as u32))
                } else {
                    Err(DecodeError::TypeMismatch("DeviceType".to_owned()))
                }
            },
            _ => Err(DecodeError::TypeMismatch("DeviceType".to_owned())),
        }
    }
}

/// A device type survives the round trip through its wire form.
pub proof fn lemma_device_type_round_trip(d: DeviceType)
    ensures
        spec_decode_device_type(spec_encode_device_type(d)) == Ok::<DeviceType, ErrV>(d),
{
}

/// Vertical alignment of a button title.
#[derive(Debug, PartialEq, Eq, Clone, Copy)]
pub enum TitleAlignment {
    Top,
    Bottom,
    Middle,
}

impl DeepView for TitleAlignment {
    type V = TitleAlignment;

    open spec fn deep_view(&self) -> TitleAlignment {
        *self
    }
}

impl View for TitleAlignment {
    type V = TitleAlignment;

    open spec fn view(&self) -> TitleAlignment {
        *self
    }
}

/// The wire form of a title alignment: its lowercase name.
pub open spec fn spec_encode_title_alignment(t: TitleAlignment) -> JsonV {
    match t {
        TitleAlignment::Top => JsonV::Str("top"@),
        TitleAlignment::Bottom => JsonV::Str("bottom"@),
        TitleAlignment::Middle => JsonV::Str("middle"@),
    }
}

/// A title alignment decodes from exactly the strings `top`, `bottom` and
/// `middle`.
pub open spec fn spec_decode_title_alignment(j: JsonV) -> Result<TitleAlignment, ErrV> {
    match j {
        JsonV::Str(s) => if s == "top"@ {
            Ok(TitleAlignment::Top)
        } else if s == "bottom"@ {
            Ok(TitleAlignment::Bottom)
        } else if s == "middle"@ {
            Ok(TitleAlignment::Middle)
        } else {
            Err(ErrV::TypeMismatch("TitleAlignment"@))
        },
        _ => Err(ErrV::TypeMismatch("TitleAlignment"@)),
    }
}

impl TitleAlignment {
    /// Encode to the lowercase alignment name.
    pub fn encode(&self) -> (r: Json)
        ensures
            r.deep_view() == spec_encode_title_alignment(*self),
    {
        match self {
            TitleAlignment::Top => Json::Str("top".to_owned()),
            TitleAlignment::Bottom => Json::Str("bottom".to_owned()),
            TitleAlignment::Middle => Json::Str("middle".to_owned()),
        }
    }

    /// Decode from the lowercase alignment name.
    pub fn decode(j: &Json) -> (r: Result<TitleAlignment, DecodeError>)
        ensures
            res_view(r) == spec_decode_title_alignment(j.deep_view()),
    {
        match j {
            Json::Str(s) => {
                if str_eq(s.as_str(), "top") {
                    Ok(TitleAlignment::Top)
                } else if str_eq(s.as_str(), "bottom") {
                    Ok(TitleAlignment::Bottom)
                } else if str_eq(s.as_str(), "middle") {
                    Ok(TitleAlignment::Middle)
                } else {
                    Err(DecodeError::TypeMismatch("TitleAlignment".to_owned()))
                }
            },
            _ => Err(DecodeError::TypeMismatch("TitleAlignment".to_owned())),
        }
    }
}

/// A title alignment survives the round trip through its wire form.
pub proof fn lemma_title_alignment_round_trip(t: TitleAlignment)
    ensures
        spec_decode_title_alignment(spec_encode_title_alignment(t)) == Ok::<
            TitleAlignment,
            ErrV,
        >(t),
{
    reveal_strlit("top");
    reveal_strlit("bottom");
    reveal_strlit("middle");
    assert("top"@.len() == 3);
    assert("bottom"@.len() == 6);
    assert("middle"@.len() == 6);
    assert("bottom"@[0] != "middle"@[0]);
}

/// Style of a button title's font.
#[derive(Debug, PartialEq, Eq, Clone, Copy)]
pub enum FontStyle {
    Regular,
    Bold,
    Italic,
    BoldItalic,
}

impl DeepView for FontStyle {
    type V = FontStyle;

    open spec fn deep_view(&self) -> FontStyle {
        *self
    }
}

impl View for FontStyle {
    type V = FontStyle;

    open spec fn view(&self) -> FontStyle {
        *self
    }
}

/// The wire form of a font style: its variant name.
pub open spec fn spec_encode_font_style(f: FontStyle) -> JsonV {
    match f {
        FontStyle::Regular => JsonV::Str("Regular"@),
        FontStyle::Bold => JsonV::Str("Bold"@),
        FontStyle::Italic => JsonV::Str("Italic"@),
        FontStyle::BoldItalic => JsonV::Str("BoldItalic"@),
    }
}

/// A font style decodes from exactly its four variant names.
pub open spec fn spec_decode_font_style(j: JsonV) -> Result<FontStyle, ErrV> {
    match j {
        JsonV::Str(s) => if s == "Regular"@ {
            Ok(FontStyle::Regular)
        } else if s == "Bold"@ {
            Ok(FontStyle::Bold)
        } else if s == "Italic"@ {
            Ok(FontStyle::Italic)
        } else if s == "BoldItalic"@ {
            Ok(FontStyle::BoldItalic)
        } else {
            Err(ErrV::TypeMismatch("FontStyle"@))
        },
        _ => Err(ErrV::TypeMismatch("FontStyle"@)),
    }
}

impl FontStyle {
    /// Encode to the variant name.
    pub fn encode(&self) -> (r: Json)
        ensures
            r.deep_view() == spec_encode_font_style(*self),
    {
        match self {
            FontStyle::Regular => Json::Str("Regular".to_owned()),
            FontStyle::Bold => Json::Str("Bold".to_owned()),
            FontStyle::Italic => Json::Str("Italic".to_owned()),
            FontStyle::BoldItalic => Json::Str("BoldItalic".to_owned()),
        }
    }

    /// Decode from the variant name.
    pub fn decode(j: &Json) -> (r: Result<FontStyle, DecodeError>)
        ensures
            res_view(r) == spec_decode_font_style(j.deep_view()),
    {
        match j {
            Json::Str(s) => {
                if str_eq(s.as_str(), "Regular") {
                    Ok(FontStyle::Regular)
                } else if str_eq(s.as_str(), "Bold") {
                    Ok(FontStyle::Bold)
                } else if str_eq(s.as_str(), "Italic") {
                    Ok(FontStyle::Italic)
                } else if str_eq(s.as_str(), "BoldItalic") {
                    Ok(FontStyle::BoldItalic)
                } else {
                    Err(DecodeError::TypeMismatch("FontStyle".to_owned()))
                }
            },
            _ => Err(DecodeError::TypeMismatch("FontStyle".to_owned())),
        }
    }
}

/// A font style survives the round trip through its wire form.
pub proof fn lemma_font_style_round_trip(f: FontStyle)
    ensures
        spec_decode_font_style(spec_encode_font_style(f)) == Ok::<FontStyle, ErrV>(f),
{
    reveal_strlit("Regular");
    reveal_strlit("Bold");
    reveal_strlit("Italic");
    reveal_strlit("BoldItalic");
    assert("Regular"@.len() == 7);
    assert("Bold"@.len() == 4);
    assert("Italic"@.len() == 6);
    assert("BoldItalic"@.len() == 10);
}

/// Default window size when a plugin or property inspector opens a window.
///
/// Encodes as a two-element ordered pair `[width, height]`, not a keyed
/// object; decoding substitutes `(500, 650)` when a manifest lacks the key.
#[derive(Debug, PartialEq, Eq, Clone, Copy)]
pub struct WindowSize(pub u32, pub u32);

impl DeepView for WindowSize {
    type V = WindowSize;

    open spec fn deep_view(&self) -> WindowSize {
        *self
    }
}

impl View for WindowSize {
    type V = WindowSize;

    open spec fn view(&self) -> WindowSize {
        *self
    }
}

/// The default window dimensions, substituted when a manifest lacks the
/// `DefaultWindowSize` key.
pub open spec fn spec_default_window_size() -> WindowSize {
    WindowSize(500, 650)
}

impl Default for WindowSize {
    /// The documented default dimensions.
    fn default() -> (r: Self)
        ensures
            r == spec_default_window_size(),
    {
        WindowSize(500, 650)
    }
}

/// The wire form of a window size: `[width, height]`.
pub open spec fn spec_encode_window_size(w: WindowSize) -> JsonV {
    JsonV::Arr(seq![JsonV::Int(w.0 as int), JsonV::Int(w.1 as int)])
}

/// A window size decodes from exactly a two-element array of integers in
/// `u32` range.
pub open spec fn spec_decode_window_size(j: JsonV) -> Result<WindowSize, ErrV> {
    match j {
        JsonV::Arr(a) => if a.len() == 2 {
            match (a[0], a[1]) {
                (JsonV::Int(w), JsonV::Int(h)) => if 0 <= w <= u32::MAX && 0 <= h <= u32::MAX {
                    Ok(WindowSize(w as u32, h as u32))
                } else {
                    Err(ErrV::TypeMismatch("DefaultWindowSize"@))
                },
                _ => Err(ErrV::TypeMismatch("DefaultWindowSize"@)),
            }
        } else {
            Err(ErrV::TypeMismatch("DefaultWindowSize"@))
        },
        _ => Err(ErrV::TypeMismatch("DefaultWindowSize"@)),
    }
}

impl WindowSize {
    /// Encode to the two-element wire array.
    pub fn encode(&self) -> (r: Json)
        ensures
            r.deep_view() == spec_encode_window_size(*self),
    {
        let mut a: Vec<Json> = Vec::new();
        a.push(Json::Int(self.0 as i64));
        a.push(Json::Int(self.1 as i64));
        let ghost av = a@;
        let r = Json::Arr(a);
        proof {
            crate::json::lemma_jv_seq(av);
            assert(jv_seq(av) =~= seq![JsonV::Int(self.0 as int), JsonV::Int(self.1 as int)]);
        }
        r
    }

    /// Decode from the two-element wire array.
    pub fn decode(j: &Json) -> (r: Result<WindowSize, DecodeError>)
        ensures
            res_view(r) == spec_decode_window_size(j.deep_view()),
    {
        match j {
            Json::Arr(a) => {
                proof {
                    crate::json::lemma_jv_seq(a@);
                }
                if a.len() == 2 {
                    let w = match &a[0] {
                        Json::Int(w) => *w,
                        _ => {
                            return Err(DecodeError::TypeMismatch("DefaultWindowSize".to_owned()));
                        },
                    };
                    let h = match &a[1] {
                        Json::Int(h) => *h,
                        _ => {
                            return Err(DecodeError::TypeMismatch("DefaultWindowSize".to_owned()));
                        },
                    };
                    if 0 <= w && w <= u32::MAX as i64 && 0 <= h && h <= u32::MAX as i64 {
                        Ok(WindowSize(w as u32, h as u32))
                    } else {
                        Err(DecodeError::TypeMismatch("DefaultWindowSize".to_owned()))
                    }
                } else {
                    Err(DecodeError::TypeMismatch("DefaultWindowSize".to_owned()))
                }
            },
            _ => Err(DecodeError::TypeMismatch("DefaultWindowSize".to_owned())),
        }
    }
}

/// A window size survives the round trip through its wire form.
pub proof fn lemma_window_size_round_trip(w: WindowSize)
    ensures
        spec_decode_window_size(spec_encode_window_size(w)) == Ok::<WindowSize, ErrV>(w),
{
}

/// Always true: the default of the boolean manifest flags that are on
/// unless the manifest switches them off.
pub fn return_true() -> (r: bool)
    ensures
        r,
{
    true
}

/// Version gate of the host software required by the plugin.
#[derive(Debug, PartialEq, Clone)]
pub struct Software {
    /// Minimum version of the host software supported by the plugin.
    pub minimum_version: String,
}

/// The mathematical counterpart of [`Software`].
pub struct SoftwareV {
    pub minimum_version: Seq<char>,
}

impl DeepView for Software {
    type V = SoftwareV;

    open spec fn deep_view(&self) -> SoftwareV {
        SoftwareV { minimum_version: self.minimum_version@ }
    }
}

impl View for Software {
    type V = SoftwareV;

    open spec fn view(&self) -> SoftwareV {
        self.deep_view()
    }
}

impl JsonCodec for Software {
    open spec fn spec_enc(v: SoftwareV) -> JsonV {
        JsonV::Obj(put(Seq::empty(), "MinimumVersion"@, JsonV::Str(v.minimum_version)))
    }

    open spec fn spec_dec(j: JsonV) -> Result<SoftwareV, ErrV> {
        match j {
            JsonV::Obj(o) => {
                let minimum_version = spec_req_str(o, "MinimumVersion"@);
                if minimum_version is Err {
                    Err(minimum_version->Err_0)
                } else {
                    Ok(SoftwareV { minimum_version: minimum_version->Ok_0 })
                }
            },
            _ => Err(ErrV::NotAnObject),
        }
    }

    fn enc(&self) -> (r: Json) {
        let mut o: Vec<(String, Json)> = Vec::new();
        proof {
            assert(jv_entries(o@) =~= Seq::<(Seq<char>, JsonV)>::empty());
        }
        put_field(&mut o, "MinimumVersion", Json::Str(self.minimum_version.clone()));
        Json::Obj(o)
    }

    fn dec(j: &Json) -> (r: Result<Software, DecodeError>) {
        let o = match j {
            Json::Obj(o) => o,
            _ => {
                return Err(DecodeError::NotAnObject);
            },
        };
        let minimum_version = match req_str(o, "MinimumVersion") {
            Ok(x) => x,
            Err(e) => {
                return Err(e);
            },
        };
        Ok(Software { minimum_version: minimum_version })
    }

    proof fn lemma_round_trip(v: SoftwareV) {
    }
}

/// An operating system, with the minimum version of it, that the plugin
/// supports.
#[derive(Debug, PartialEq, Clone)]
pub struct OS {
    /// Name of the platform.
    pub platform: Platform,
    /// Minimum version of the operating system supported.
    pub minimum_version: String,
}

/// The mathematical counterpart of [`OS`].
pub struct OSV {
    pub platform: Platform,
    pub minimum_version: Seq<char>,
}

impl DeepView for OS {
    type V = OSV;

    open spec fn deep_view(&self) -> OSV {
        OSV { platform: self.platform, minimum_version: self.minimum_version@ }
    }
}

impl View for OS {
    type V = OSV;

    open spec fn view(&self) -> OSV {
        self.deep_view()
    }
}

impl JsonCodec for OS {
    open spec fn spec_enc(v: OSV) -> JsonV {
        JsonV::Obj(
            put(
                put(Seq::empty(), "Platform"@, spec_encode_platform(v.platform)),
                "MinimumVersion"@,
                JsonV::Str(v.minimum_version),
            ),
        )
    }

    open spec fn spec_dec(j: JsonV) -> Result<OSV, ErrV> {
        match j {
            JsonV::Obj(o) => {
                let platform = match lookup(o, "Platform"@) {
                    Some(x) => spec_decode_platform(x),
                    None => Err(ErrV::MissingField("Platform"@)),
                };
                let minimum_version = spec_req_str(o, "MinimumVersion"@);
                if platform is Err {
                    Err(platform->Err_0)
                } else if minimum_version is Err {
                    Err(minimum_version->Err_0)
                } else {
                    Ok(OSV { platform: platform->Ok_0, minimum_version: minimum_version->Ok_0 })
                }
            },
            _ => Err(ErrV::NotAnObject),
        }
    }

    fn enc(&self) -> (r: Json) {
        let mut o: Vec<(String, Json)> = Vec::new();
        proof {
            assert(jv_entries(o@) =~= Seq::<(Seq<char>, JsonV)>::empty());
        }
        put_field(&mut o, "Platform", self.platform.encode());
        put_field(&mut o, "MinimumVersion", Json::Str(self.minimum_version.clone()));
        Json::Obj(o)
    }

    fn dec(j: &Json) -> (r: Result<OS, DecodeError>) {
        let o = match j {
            Json::Obj(o) => o,
            _ => {
                return Err(DecodeError::NotAnObject);
            },
        };
        let platform = match lookup_field(o, "Platform") {
            Some(x) => match Platform::decode(x) {
                Ok(p) => p,
                Err(e) => {
                    return Err(e);
                },
            },
            None => {
                return Err(DecodeError::MissingField("Platform".to_owned()));
            },
        };
        let minimum_version = match req_str(o, "MinimumVersion") {
            Ok(x) => x,
            Err(e) => {
                return Err(e);
            },
        };
        Ok(OS { platform: platform, minimum_version: minimum_version })
    }

    proof fn lemma_round_trip(v: OSV) {
        reveal_strlit("Platform");
        reveal_strlit("MinimumVersion");
        assert("Platform"@.len() == 8);
        assert("MinimumVersion"@.len() == 14);
        lemma_platform_round_trip(v.platform);
    }
}

/// A profile of key assignments offered at installation.
#[derive(Debug, PartialEq, Clone)]
pub struct Profile {
    /// The name of the profile.
    pub name: String,
    /// Kind of device the profile is for.
    pub device_type: DeviceType,
    /// Mark the profile as read-only.
    pub readonly: bool,
    /// Prevent the host from switching to the profile when installed.
    pub dont_auto_switch_when_installed: bool,
}

/// The mathematical counterpart of [`Profile`].
pub struct ProfileV {
    pub name: Seq<char>,
    pub device_type: DeviceType,
    pub readonly: bool,
    pub dont_auto_switch_when_installed: bool,
}

impl DeepView for Profile {
    type V = ProfileV;

    open spec fn deep_view(&self) -> ProfileV {
        ProfileV {
            name: self.name@,
            device_type: self.device_type,
            readonly: self.readonly,
            dont_auto_switch_when_installed: self.dont_auto_switch_when_installed,
        }
    }
}

impl View for Profile {
    type V = ProfileV;

    open spec fn view(&self) -> ProfileV {
        self.deep_view()
    }
}

impl JsonCodec for Profile {
    open spec fn spec_enc(v: ProfileV) -> JsonV {
        JsonV::Obj(
            put(
                put(
                    put(
                        put(Seq::empty(), "Name"@, JsonV::Str(v.name)),
                        "DeviceType"@,
                        spec_encode_device_type(v.device_type),
                    ),
                    "Readonly"@,
                    JsonV::Bool(v.readonly),
                ),
                "DontAutoSwitchWhenInstalled"@,
                JsonV::Bool(v.dont_auto_switch_when_installed),
            ),
        )
    }

    open spec fn spec_dec(j: JsonV) -> Result<ProfileV, ErrV> {
        match j {
            JsonV::Obj(o) => {
                let name = spec_req_str(o, "Name"@);
                let device_type = match lookup(o, "DeviceType"@) {
                    Some(x) => spec_decode_device_type(x),
                    None => Err(ErrV::MissingField("DeviceType"@)),
                };
                let readonly = spec_bool_or(o, "Readonly"@, false);
                let dont_auto_switch = spec_bool_or(o, "DontAutoSwitchWhenInstalled"@, false);
                if name is Err {
                    Err(name->Err_0)
                } else if device_type is Err {
                    Err(device_type->Err_0)
                } else if readonly is Err {
                    Err(readonly->Err_0)
                } else if dont_auto_switch is Err {
                    Err(dont_auto_switch->Err_0)
                } else {
                    Ok(
                        (ProfileV {
                            name: name->Ok_0,
                            device_type: device_type->Ok_0,
                            readonly: readonly->Ok_0,
                            dont_auto_switch_when_installed: dont_auto_switch->Ok_0,
                        }),
                    )
                }
            },
            _ => Err(ErrV::NotAnObject),
        }
    }

    fn enc(&self) -> (r: Json) {
        let mut o: Vec<(String, Json)> = Vec::new();
        proof {
            assert(jv_entries(o@) =~= Seq::<(Seq<char>, JsonV)>::empty());
        }
        put_field(&mut o, "Name", Json::Str(self.name.clone()));
        put_field(&mut o, "DeviceType", self.device_type.encode());
        put_field(&mut o, "Readonly", Json::Bool(self.readonly));
        put_field(
            &mut o,
            "DontAutoSwitchWhenInstalled",
            Json::Bool(self.dont_auto_switch_when_installed),
        );
        Json::Obj(o)
    }

    fn dec(j: &Json) -> (r: Result<Profile, DecodeError>) {
        let o = match j {
            Json::Obj(o) => o,
            _ => {
                return Err(DecodeError::NotAnObject);
            },
        };
        let name = match req_str(o, "Name") {
            Ok(x) => x,
            Err(e) => {
                return Err(e);
            },
        };
        let device_type = match lookup_field(o, "DeviceType") {
            Some(x) => match DeviceType::decode(x) {
                Ok(d) => d,
                Err(e) => {
                    return Err(e);
                },
            },
            None => {
                return Err(DecodeError::MissingField("DeviceType".to_owned()));
            },
        };
        let readonly = match bool_or(o, "Readonly", false) {
            Ok(x) => x,
            Err(e) => {
                return Err(e);
            },
        };
        let dont_auto_switch_when_installed = match bool_or(
            o,
            "DontAutoSwitchWhenInstalled",
            false,
        ) {
            Ok(x) => x,
            Err(e) => {
                return Err(e);
            },
        };
        Ok(
            (Profile {
                name: name,
                device_type: device_type,
                readonly: readonly,
                dont_auto_switch_when_installed: dont_auto_switch_when_installed,
            }),
        )
    }

    proof fn lemma_round_trip(v: ProfileV) {
        reveal_strlit("Name");
        reveal_strlit("DeviceType");
        reveal_strlit("Readonly");
        reveal_strlit("DontAutoSwitchWhenInstalled");
        assert("Name"@.len() == 4);
        assert("DeviceType"@.len() == 10);
        assert("Readonly"@.len() == 8);
        assert("DontAutoSwitchWhenInstalled"@.len() == 27);
    }
}

/// One visual configuration of a button face: an image plus optional
/// title styling.
#[derive(Debug, PartialEq, Clone)]
pub struct State {
    /// Default image for the state.
    pub image: String,
    /// A different image when used in a multi-action.
    pub multi_action_image: Option<String>,
    /// Displayed in a dropdown menu for a multi-action.
    pub name: Option<String>,
    /// Default title.
    pub title: Option<String>,
    /// Whether to show the title; true when the manifest is silent.
    pub show_title: bool,
    /// Default title color.
    pub title_color: Option<String>,
    /// Default title vertical alignment.
    pub title_alignment: Option<TitleAlignment>,
    /// Default font family for the title.
    pub font_family: Option<String>,
    /// Default font style for the title.
    pub font_style: Option<FontStyle>,
    /// Default font size for the title.
    pub font_size: Option<String>,
    /// Underline the title; false when the manifest is silent.
    pub font_underline: bool,
}

/// The mathematical counterpart of [`State`].
pub struct StateV {
    pub image: Seq<char>,
    pub multi_action_image: Option<Seq<char>>,
    pub name: Option<Seq<char>>,
    pub title: Option<Seq<char>>,
    pub show_title: bool,
    pub title_color: Option<Seq<char>>,
    pub title_alignment: Option<TitleAlignment>,
    pub font_family: Option<Seq<char>>,
    pub font_style: Option<FontStyle>,
    pub font_size: Option<Seq<char>>,
    pub font_underline: bool,
}

impl DeepView for State {
    type V = StateV;

    open spec fn deep_view(&self) -> StateV {
        StateV {
            image: self.image@,
            multi_action_image: self.multi_action_image.deep_view(),
            name: self.name.deep_view(),
            title: self.title.deep_view(),
            show_title: self.show_title,
            title_color: self.title_color.deep_view(),
            title_alignment: self.title_alignment,
            font_family: self.font_family.deep_view(),
            font_style: self.font_style,
            font_size: self.font_size.deep_view(),
            font_underline: self.font_underline,
        }
    }
}

impl View for State {
    type V = StateV;

    open spec fn view(&self) -> StateV {
        self.deep_view()
    }
}

/// The wire form of an optional title alignment.
pub open spec fn opt_title_alignment_json(t: Option<TitleAlignment>) -> Option<JsonV> {
    match t {
        Some(x) => Some(spec_encode_title_alignment(x)),
        None => None,
    }
}

/// The wire form of an optional font style.
pub open spec fn opt_font_style_json(f: Option<FontStyle>) -> Option<JsonV> {
    match f {
        Some(x) => Some(spec_encode_font_style(x)),
        None => None,
    }
}

impl JsonCodec for State {
    open spec fn spec_enc(v: StateV) -> JsonV {
        let o = put(Seq::empty(), "Image"@, JsonV::Str(v.image));
        let o = put_opt(o, "MultiActionImage"@, opt_str_json(v.multi_action_image));
        let o = put_opt(o, "Name"@, opt_str_json(v.name));
        let o = put_opt(o, "Title"@, opt_str_json(v.title));
        let o = put(o, "ShowTitle"@, JsonV::Bool(v.show_title));
        let o = put_opt(o, "TitleColor"@, opt_str_json(v.title_color));
        let o = put_opt(o, "TitleAlignment"@, opt_title_alignment_json(v.title_alignment));
        let o = put_opt(o, "FontFamily"@, opt_str_json(v.font_family));
        let o = put_opt(o, "FontStyle"@, opt_font_style_json(v.font_style));
        let o = put_opt(o, "FontSize"@, opt_str_json(v.font_size));
        let o = put(o, "FontUnderline"@, JsonV::Bool(v.font_underline));
        JsonV::Obj(o)
    }

    open spec fn spec_dec(j: JsonV) -> Result<StateV, ErrV> {
        match j {
            JsonV::Obj(o) => {
                let image = spec_req_str(o, "Image"@);
                let multi_action_image = spec_opt_str(o, "MultiActionImage"@);
                let name = spec_opt_str(o, "Name"@);
                let title = spec_opt_str(o, "Title"@);
                let show_title = spec_bool_or(o, "ShowTitle"@, true);
                let title_color = spec_opt_str(o, "TitleColor"@);
                let title_alignment = match lookup(o, "TitleAlignment"@) {
                    Some(x) => match spec_decode_title_alignment(x) {
                        Ok(t) => Ok(Some(t)),
                        Err(e) => Err(e),
                    },
                    None => Ok(None),
                };
                let font_family = spec_opt_str(o, "FontFamily"@);
                let font_style = match lookup(o, "FontStyle"@) {
                    Some(x) => match spec_decode_font_style(x) {
                        Ok(f) => Ok(Some(f)),
                        Err(e) => Err(e),
                    },
                    None => Ok(None),
                };
                let font_size = spec_opt_str(o, "FontSize"@);
                let font_underline = spec_bool_or(o, "FontUnderline"@, false);
                if image is Err {
                    Err(image->Err_0)
                } else if multi_action_image is Err {
                    Err(multi_action_image->Err_0)
                } else if name is Err {
                    Err(name->Err_0)
                } else if title is Err {
                    Err(title->Err_0)
                } else if show_title is Err {
                    Err(show_title->Err_0)
                } else if title_color is Err {
                    Err(title_color->Err_0)
                } else if title_alignment is Err {
                    Err(title_alignment->Err_0)
                } else if font_family is Err {
                    Err(font_family->Err_0)
                } else if font_style is Err {
                    Err(font_style->Err_0)
                } else if font_size is Err {
                    Err(font_size->Err_0)
                } else if font_underline is Err {
                    Err(font_underline->Err_0)
                } else {
                    Ok(
                        (StateV {
                            image: image->Ok_0,
                            multi_action_image: multi_action_image->Ok_0,
                            name: name->Ok_0,
                            title: title->Ok_0,
                            show_title: show_title->Ok_0,
                            title_color: title_color->Ok_0,
                            title_alignment: title_alignment->Ok_0,
                            font_family: font_family->Ok_0,
                            font_style: font_style->Ok_0,
                            font_size: font_size->Ok_0,
                            font_underline: font_underline->Ok_0,
                        }),
                    )
                }
            },
            _ => Err(ErrV::NotAnObject),
        }
    }

    fn enc(&self) -> (r: Json) {
        let mut o: Vec<(String, Json)> = Vec::new();
        proof {
            assert(jv_entries(o@) =~= Seq::<(Seq<char>, JsonV)>::empty());
        }
        put_field(&mut o, "Image", Json::Str(self.image.clone()));
        if let Some(x) = &self.multi_action_image {
            put_field(&mut o, "MultiActionImage", Json::Str(x.clone()));
        }
        if let Some(x) = &self.name {
            put_field(&mut o, "Name", Json::Str(x.clone()));
        }
        if let Some(x) = &self.title {
            put_field(&mut o, "Title", Json::Str(x.clone()));
        }
        put_field(&mut o, "ShowTitle", Json::Bool(self.show_title));
        if let Some(x) = &self.title_color {
            put_field(&mut o, "TitleColor", Json::Str(x.clone()));
        }
        if let Some(x) = &self.title_alignment {
            put_field(&mut o, "TitleAlignment", x.encode());
        }
        if let Some(x) = &self.font_family {
            put_field(&mut o, "FontFamily", Json::Str(x.clone()));
        }
        if let Some(x) = &self.font_style {
            put_field(&mut o, "FontStyle", x.encode());
        }
        if let Some(x) = &self.font_size {
            put_field(&mut o, "FontSize", Json::Str(x.clone()));
        }
        put_field(&mut o, "FontUnderline", Json::Bool(self.font_underline));
        Json::Obj(o)
    }

    fn dec(j: &Json) -> (r: Result<State, DecodeError>) {
        let o = match j {
            Json::Obj(o) => o,
            _ => {
                return Err(DecodeError::NotAnObject);
            },
        };
        let image = match req_str(o, "Image") {
            Ok(x) => x,
            Err(e) => {
                return Err(e);
            },
        };
        let multi_action_image = match opt_str(o, "MultiActionImage") {
            Ok(x) => x,
            Err(e) => {
                return Err(e);
            },
        };
        let name = match opt_str(o, "Name") {
            Ok(x) => x,
            Err(e) => {
                return Err(e);
            },
        };
        let title = match opt_str(o, "Title") {
            Ok(x) => x,
            Err(e) => {
                return Err(e);
            },
        };
        let show_title = match bool_or(o, "ShowTitle", true) {
            Ok(x) => x,
            Err(e) => {
                return Err(e);
            },
        };
        let title_color = match opt_str(o, "TitleColor") {
            Ok(x) => x,
            Err(e) => {
                return Err(e);
            },
        };
        let title_alignment = match lookup_field(o, "TitleAlignment") {
            Some(x) => match TitleAlignment::decode(x) {
                Ok(t) => Some(t),
                Err(e) => {
                    return Err(e);
                },
            },
            None => None,
        };
        let font_family = match opt_str(o, "FontFamily") {
            Ok(x) => x,
            Err(e) => {
                return Err(e);
            },
        };
        let font_style = match lookup_field(o, "FontStyle") {
            Some(x) => match FontStyle::decode(x) {
                Ok(f) => Some(f),
                Err(e) => {
                    return Err(e);
                },
            },
            None => None,
        };
        let font_size = match opt_str(o, "FontSize") {
            Ok(x) => x,
            Err(e) => {
                return Err(e);
            },
        };
        let font_underline = match bool_or(o, "FontUnderline", false) {
            Ok(x) => x,
            Err(e) => {
                return Err(e);
            },
        };
        Ok(
            (State {
                image: image,
                multi_action_image: multi_action_image,
                name: name,
                title: title,
                show_title: show_title,
                title_color: title_color,
                title_alignment: title_alignment,
                font_family: font_family,
                font_style: font_style,
                font_size: font_size,
                font_underline: font_underline,
            }),
        )
    }

    #[verifier::rlimit(100)]
    proof fn lemma_round_trip(v: StateV) {
        reveal_strlit("Image");
        reveal_strlit("MultiActionImage");
        reveal_strlit("Name");
        reveal_strlit("Title");
        reveal_strlit("ShowTitle");
        reveal_strlit("TitleColor");
        reveal_strlit("TitleAlignment");
        reveal_strlit("FontFamily");
        reveal_strlit("FontStyle");
        reveal_strlit("FontSize");
        reveal_strlit("FontUnderline");
        assert("Image"@.len() == 5);
        assert("MultiActionImage"@.len() == 16);
        assert("Name"@.len() == 4);
        assert("Title"@.len() == 5);
        assert("ShowTitle"@.len() == 9);
        assert("TitleColor"@.len() == 10);
        assert("TitleAlignment"@.len() == 14);
        assert("FontFamily"@.len() == 10);
        assert("FontStyle"@.len() == 9);
        assert("FontSize"@.len() == 8);
        assert("FontUnderline"@.len() == 13);
        assert("Image"@[0] != "Title"@[0]);
        assert("ShowTitle"@[0] != "FontStyle"@[0]);
        assert("TitleColor"@[0] != "FontFamily"@[0]);
        if let Some(t) = v.title_alignment {
            lemma_title_alignment_round_trip(t);
        }
        if let Some(f) = v.font_style {
            lemma_font_style_round_trip(f);
        }
    }
}

/// An action available in the plugin: a user-assignable unit with a
/// stable identifier and one or more visual states.
#[derive(Debug, PartialEq, Clone)]
pub struct Action {
    /// Image shown in the actions list; not required for actions hidden
    /// from the list.
    pub icon: Option<String>,
    /// Name of the action, visible in the actions list.
    pub name: String,
    /// Override of the plugin-wide property-inspector path.
    pub property_inspector_path: Option<String>,
    /// The states the action's button face can show; one or many.
    pub states: Vec<State>,
    /// Whether the action can stand in a multi-action; true when the
    /// manifest is silent.
    pub supported_in_multi_actions: bool,
    /// Tooltip shown over the actions list.
    pub tooltip: Option<String>,
    /// Unique reverse-DNS identifier of the action.
    pub uuid: String,
    /// Disable image caching; false when the manifest is silent.
    pub disable_caching: bool,
    /// Whether the action shows in the actions list; true when the
    /// manifest is silent.
    pub visible_in_actions_list: bool,
}

/// The mathematical counterpart of [`Action`].
pub struct ActionV {
    pub icon: Option<Seq<char>>,
    pub name: Seq<char>,
    pub property_inspector_path: Option<Seq<char>>,
    pub states: Seq<StateV>,
    pub supported_in_multi_actions: bool,
    pub tooltip: Option<Seq<char>>,
    pub uuid: Seq<char>,
    pub disable_caching: bool,
    pub visible_in_actions_list: bool,
}

impl DeepView for Action {
    type V = ActionV;

    open spec fn deep_view(&self) -> ActionV {
        ActionV {
            icon: self.icon.deep_view(),
            name: self.name@,
            property_inspector_path: self.property_inspector_path.deep_view(),
            states: self.states.deep_view(),
            supported_in_multi_actions: self.supported_in_multi_actions,
            tooltip: self.tooltip.deep_view(),
            uuid: self.uuid@,
            disable_caching: self.disable_caching,
            visible_in_actions_list: self.visible_in_actions_list,
        }
    }
}

impl View for Action {
    type V = ActionV;

    open spec fn view(&self) -> ActionV {
        self.deep_view()
    }
}

impl JsonCodec for Action {
    open spec fn spec_enc(v: ActionV) -> JsonV {
        let o = put_opt(Seq::empty(), "Icon"@, opt_str_json(v.icon));
        let o = put(o, "Name"@, JsonV::Str(v.name));
        let o = put_opt(o, "PropertyInspectorPath"@, opt_str_json(v.property_inspector_path));
        let o = put(o, "States"@, JsonV::Arr(spec_encode_list::<State>(v.states)));
        let o = put(o, "SupportedInMultiActions"@, JsonV::Bool(v.supported_in_multi_actions));
        let o = put_opt(o, "Tooltip"@, opt_str_json(v.tooltip));
        let o = put(o, "UUID"@, JsonV::Str(v.uuid));
        let o = put(o, "DisableCaching"@, JsonV::Bool(v.disable_caching));
        let o = put(o, "VisibleInActionsList"@, JsonV::Bool(v.visible_in_actions_list));
        JsonV::Obj(o)
    }

    open spec fn spec_dec(j: JsonV) -> Result<ActionV, ErrV> {
        match j {
            JsonV::Obj(o) => {
                let icon = spec_opt_str(o, "Icon"@);
                let name = spec_req_str(o, "Name"@);
                let pip = spec_opt_str(o, "PropertyInspectorPath"@);
                let states = match lookup(o, "States"@) {
                    Some(JsonV::Arr(a)) => spec_decode_list::<State>(a),
                    Some(_) => Err(ErrV::TypeMismatch("States"@)),
                    None => Err(ErrV::MissingField("States"@)),
                };
                let sima = spec_bool_or(o, "SupportedInMultiActions"@, true);
                let tooltip = spec_opt_str(o, "Tooltip"@);
                let uuid = spec_req_str(o, "UUID"@);
                let disable_caching = spec_bool_or(o, "DisableCaching"@, false);
                let vial = spec_bool_or(o, "VisibleInActionsList"@, true);
                if icon is Err {
                    Err(icon->Err_0)
                } else if name is Err {
                    Err(name->Err_0)
                } else if pip is Err {
                    Err(pip->Err_0)
                } else if states is Err {
                    Err(states->Err_0)
                } else if sima is Err {
                    Err(sima->Err_0)
                } else if tooltip is Err {
                    Err(tooltip->Err_0)
                } else if uuid is Err {
                    Err(uuid->Err_0)
                } else if disable_caching is Err {
                    Err(disable_caching->Err_0)
                } else if vial is Err {
                    Err(vial->Err_0)
                } else {
                    Ok(
                        (ActionV {
                            icon: icon->Ok_0,
                            name: name->Ok_0,
                            property_inspector_path: pip->Ok_0,
                            states: states->Ok_0,
                            supported_in_multi_actions: sima->Ok_0,
                            tooltip: tooltip->Ok_0,
                            uuid: uuid->Ok_0,
                            disable_caching: disable_caching->Ok_0,
                            visible_in_actions_list: vial->Ok_0,
                        }),
                    )
                }
            },
            _ => Err(ErrV::NotAnObject),
        }
    }

    fn enc(&self) -> (r: Json) {
        let mut o: Vec<(String, Json)> = Vec::new();
        proof {
            assert(jv_entries(o@) =~= Seq::<(Seq<char>, JsonV)>::empty());
        }
        if let Some(x) = &self.icon {
            put_field(&mut o, "Icon", Json::Str(x.clone()));
        }
        put_field(&mut o, "Name", Json::Str(self.name.clone()));
        if let Some(x) = &self.property_inspector_path {
            put_field(&mut o, "PropertyInspectorPath", Json::Str(x.clone()));
        }
        put_field(&mut o, "States", Json::Arr(encode_list::<State>(&self.states)));
        put_field(&mut o, "SupportedInMultiActions", Json::Bool(self.supported_in_multi_actions));
        if let Some(x) = &self.tooltip {
            put_field(&mut o, "Tooltip", Json::Str(x.clone()));
        }
        put_field(&mut o, "UUID", Json::Str(self.uuid.clone()));
        put_field(&mut o, "DisableCaching", Json::Bool(self.disable_caching));
        put_field(&mut o, "VisibleInActionsList", Json::Bool(self.visible_in_actions_list));
        Json::Obj(o)
    }

    fn dec(j: &Json) -> (r: Result<Action, DecodeError>) {
        let o = match j {
            Json::Obj(o) => o,
            _ => {
                return Err(DecodeError::NotAnObject);
            },
        };
        let icon = match opt_str(o, "Icon") {
            Ok(x) => x,
            Err(e) => {
                return Err(e);
            },
        };
        let name = match req_str(o, "Name") {
            Ok(x) => x,
            Err(e) => {
                return Err(e);
            },
        };
        let property_inspector_path = match opt_str(o, "PropertyInspectorPath") {
            Ok(x) => x,
            Err(e) => {
                return Err(e);
            },
        };
        let states = match lookup_field(o, "States") {
            Some(Json::Arr(a)) => match decode_list::<State>(a) {
                Ok(x) => x,
                Err(e) => {
                    return Err(e);
                },
            },
            Some(_) => {
                return Err(DecodeError::TypeMismatch("States".to_owned()));
            },
            None => {
                return Err(DecodeError::MissingField("States".to_owned()));
            },
        };
        let supported_in_multi_actions = match bool_or(o, "SupportedInMultiActions", true) {
            Ok(x) => x,
            Err(e) => {
                return Err(e);
            },
        };
        let tooltip = match opt_str(o, "Tooltip") {
            Ok(x) => x,
            Err(e) => {
                return Err(e);
            },
        };
        let uuid = match req_str(o, "UUID") {
            Ok(x) => x,
            Err(e) => {
                return Err(e);
            },
        };
        let disable_caching = match bool_or(o, "DisableCaching", false) {
            Ok(x) => x,
            Err(e) => {
                return Err(e);
            },
        };
        let visible_in_actions_list = match bool_or(o, "VisibleInActionsList", true) {
            Ok(x) => x,
            Err(e) => {
                return Err(e);
            },
        };
        Ok(
            (Action {
                icon: icon,
                name: name,
                property_inspector_path: property_inspector_path,
                states: states,
                supported_in_multi_actions: supported_in_multi_actions,
                tooltip: tooltip,
                uuid: uuid,
                disable_caching: disable_caching,
                visible_in_actions_list: visible_in_actions_list,
            }),
        )
    }

    #[verifier::rlimit(100)]
    proof fn lemma_round_trip(v: ActionV) {
        reveal_strlit("Icon");
        reveal_strlit("Name");
        reveal_strlit("PropertyInspectorPath");
        reveal_strlit("States");
        reveal_strlit("SupportedInMultiActions");
        reveal_strlit("Tooltip");
        reveal_strlit("UUID");
        reveal_strlit("DisableCaching");
        reveal_strlit("VisibleInActionsList");
        assert("Icon"@.len() == 4);
        assert("Name"@.len() == 4);
        assert("PropertyInspectorPath"@.len() == 21);
        assert("States"@.len() == 6);
        assert("SupportedInMultiActions"@.len() == 23);
        assert("Tooltip"@.len() == 7);
        assert("UUID"@.len() == 4);
        assert("DisableCaching"@.len() == 14);
        assert("VisibleInActionsList"@.len() == 20);
        assert("Icon"@[0] != "Name"@[0]);
        assert("Icon"@[0] != "UUID"@[0]);
        assert("Name"@[0] != "UUID"@[0]);
        lemma_list_round_trip::<State>(v.states);
    }
}

impl JsonCodec for String {
    open spec fn spec_enc(v: Seq<char>) -> JsonV {
        JsonV::Str(v)
    }

    open spec fn spec_dec(j: JsonV) -> Result<Seq<char>, ErrV> {
        match j {
            JsonV::Str(s) => Ok(s),
            _ => Err(ErrV::TypeMismatch("ApplicationsToMonitor"@)),
        }
    }

    fn enc(&self) -> (r: Json) {
        Json::Str(self.clone())
    }

    fn dec(j: &Json) -> (r: Result<String, DecodeError>) {
        match j {
            Json::Str(s) => Ok(s.clone()),
            _ => Err(DecodeError::TypeMismatch("ApplicationsToMonitor".to_owned())),
        }
    }

    proof fn lemma_round_trip(v: Seq<char>) {
    }
}

/// The wire form of the application-monitor map: one entry per platform
/// name, each value the array of application identifiers, in order.
pub open spec fn spec_encode_apps(m: Seq<(Seq<char>, Seq<Seq<char>>)>) -> Seq<
    (Seq<char>, JsonV),
>
    decreases m.len(),
{
    if m.len() == 0 {
        Seq::empty()
    } else {
        seq![(m.first().0, JsonV::Arr(spec_encode_list::<String>(m.first().1)))]
            + spec_encode_apps(m.drop_first())
    }
}

/// The decode of the application-monitor map: every entry in order, each
/// value an array of strings.
pub open spec fn spec_decode_apps(o: Seq<(Seq<char>, JsonV)>) -> Result<
    Seq<(Seq<char>, Seq<Seq<char>>)>,
    ErrV,
>
    decreases o.len(),
{
    if o.len() == 0 {
        Ok(Seq::empty())
    } else {
        match o.first().1 {
            JsonV::Arr(a) => match spec_decode_list::<String>(a) {
                Err(e) => Err(e),
                Ok(l) => match spec_decode_apps(o.drop_first()) {
                    Err(e) => Err(e),
                    Ok(rest) => Ok(seq![(o.first().0, l)] + rest),
                },
            },
            _ => Err(ErrV::TypeMismatch("ApplicationsToMonitor"@)),
        }
    }
}

/// The application-monitor map survives the round trip through its wire
/// form.
pub proof fn lemma_apps_round_trip(m: Seq<(Seq<char>, Seq<Seq<char>>)>)
    ensures
        spec_decode_apps(spec_encode_apps(m)) == Ok::<Seq<(Seq<char>, Seq<Seq<char>>)>, ErrV>(m),
    decreases m.len(),
{
    if m.len() == 0 {
        assert(m =~= Seq::<(Seq<char>, Seq<Seq<char>>)>::empty());
    } else {
        let e = spec_encode_apps(m);
        assert(e.first() == (m.first().0, JsonV::Arr(spec_encode_list::<String>(m.first().1))));
        assert(e.drop_first() =~= spec_encode_apps(m.drop_first()));
        lemma_list_round_trip::<String>(m.first().1);
        lemma_apps_round_trip(m.drop_first());
        assert(seq![(m.first().0, m.first().1)] + m.drop_first() =~= m);
        assert((m.first().0, m.first().1) == m.first());
    }
}

/// Encode the application-monitor entries from position `i` on.
fn encode_apps_from(v: &Vec<(String, Vec<String>)>, i: usize) -> (r: Vec<(String, Json)>)
    requires
        i <= v@.len(),
    ensures
        jv_entries(r@) == spec_encode_apps(v.deep_view().skip(i as int)),
    decreases v@.len() - i,
{
    if i == v.len() {
        let r: Vec<(String, Json)> = Vec::new();
        proof {
            assert(v.deep_view().skip(i as int) =~= Seq::<(Seq<char>, Seq<Seq<char>>)>::empty());
            assert(jv_entries(r@) =~= Seq::<(Seq<char>, JsonV)>::empty());
        }
        r
    } else {
        let key = v[i].0.clone();
        let val = Json::Arr(encode_list::<String>(&v[i].1));
        let ghost ev = (key@, val.deep_view());
        let mut rest = encode_apps_from(v, i + 1);
        let ghost rv = rest@;
        rest.insert(0, (key, val));
        proof {
            let s = v.deep_view().skip(i as int);
            assert(s.first() == v.deep_view()[i as int]);
            assert(s.drop_first() =~= v.deep_view().skip(i as int + 1));
            crate::json::lemma_jv_entries(rest@);
            crate::json::lemma_jv_entries(rv);
            assert(jv_entries(rest@) =~= seq![ev] + jv_entries(rv));
        }
        rest
    }
}

/// Encode the application-monitor entries, in order.
pub fn encode_apps(v: &Vec<(String, Vec<String>)>) -> (r: Vec<(String, Json)>)
    ensures
        jv_entries(r@) == spec_encode_apps(v.deep_view()),
{
    let r = encode_apps_from(v, 0);
    proof {
        assert(v.deep_view().skip(0) =~= v.deep_view());
    }
    r
}

/// Decode the application-monitor entries from position `i` on.
fn decode_apps_from(v: &Vec<(String, Json)>, i: usize) -> (r: Result<
    Vec<(String, Vec<String>)>,
    DecodeError,
>)
    requires
        i <= v@.len(),
    ensures
        res_view(r) == spec_decode_apps(jv_entries(v@).skip(i as int)),
    decreases v@.len() - i,
{
    proof {
        crate::json::lemma_jv_entries(v@);
    }
    if i == v.len() {
        let r: Vec<(String, Vec<String>)> = Vec::new();
        proof {
            assert(jv_entries(v@).skip(i as int) =~= Seq::<(Seq<char>, JsonV)>::empty());
            assert(r.deep_view() =~= Seq::<(Seq<char>, Seq<Seq<char>>)>::empty());
        }
        Ok(r)
    } else {
        let ghost s = jv_entries(v@).skip(i as int);
        proof {
            assert(s.first() == (v@[i as int].0@, v@[i as int].1.deep_view()));
            assert(s.drop_first() =~= jv_entries(v@).skip(i as int + 1));
        }
        let key = v[i].0.clone();
        let l = match &v[i].1 {
            Json::Arr(a) => match decode_list::<String>(a) {
                Ok(x) => x,
                Err(e) => {
                    return Err(e);
                },
            },
            _ => {
                return Err(DecodeError::TypeMismatch("ApplicationsToMonitor".to_owned()));
            },
        };
        let mut rest = match decode_apps_from(v, i + 1) {
            Ok(r) => r,
            Err(e) => {
                return Err(e);
            },
        };
        let ghost rv = rest.deep_view();
        let ghost xv = (key@, l.deep_view());
        rest.insert(0, (key, l));
        proof {
            assert(rest.deep_view() =~= seq![xv] + rv);
        }
        Ok(rest)
    }
}

/// Decode the application-monitor entries, in order.
pub fn decode_apps(v: &Vec<(String, Json)>) -> (r: Result<
    Vec<(String, Vec<String>)>,
    DecodeError,
>)
    ensures
        res_view(r) == spec_decode_apps(jv_entries(v@)),
{
    let r = decode_apps_from(v, 0);
    proof {
        assert(jv_entries(v@).skip(0) =~= jv_entries(v@));
    }
    r
}

/// The root record of the plugin descriptor file.
#[derive(Debug, PartialEq, Clone)]
pub struct Manifest {
    /// The actions available in the plugin.
    pub actions: Vec<Action>,
    /// The author of the plugin.
    pub author: String,
    /// Category for listing the plugin.
    pub category: Option<String>,
    /// Image shown beside the category.
    pub category_icon: Option<String>,
    /// Path to the code that makes up the plugin.
    pub code_path: String,
    /// Override of `code_path` for macOS.
    pub code_path_mac: Option<String>,
    /// Override of `code_path` for Windows.
    pub code_path_win: Option<String>,
    /// A general description of the plugin.
    pub description: String,
    /// Image shown in the plugin store.
    pub icon: String,
    /// Name of the plugin.
    pub name: String,
    /// Profiles presented on installation.
    pub profiles: Option<Vec<Profile>>,
    /// Path to the property-inspector page for custom setting display.
    pub property_inspector_path: Option<String>,
    /// Window size when the plugin or property inspector opens a window;
    /// `(500, 650)` when the manifest is silent.
    pub default_window_size: WindowSize,
    /// A site with more information about the plugin.
    pub url: Option<String>,
    /// The plugin's version.
    pub version: String,
    /// Supported protocol version.
    pub sdk_version: u32,
    /// Operating systems and versions supported by the plugin.
    pub os: Vec<OS>,
    /// Version of the host software required by the plugin.
    pub software: Software,
    /// Application identifiers to monitor, keyed by platform name.
    pub applications_to_monitor: Option<Vec<(String, Vec<String>)>>,
}

/// The mathematical counterpart of [`Manifest`].
pub struct ManifestV {
    pub actions: Seq<ActionV>,
    pub author: Seq<char>,
    pub category: Option<Seq<char>>,
    pub category_icon: Option<Seq<char>>,
    pub code_path: Seq<char>,
    pub code_path_mac: Option<Seq<char>>,
    pub code_path_win: Option<Seq<char>>,
    pub description: Seq<char>,
    pub icon: Seq<char>,
    pub name: Seq<char>,
    pub profiles: Option<Seq<ProfileV>>,
    pub property_inspector_path: Option<Seq<char>>,
    pub default_window_size: WindowSize,
    pub url: Option<Seq<char>>,
    pub version: Seq<char>,
    pub sdk_version: u32,
    pub os: Seq<OSV>,
    pub software: SoftwareV,
    pub applications_to_monitor: Option<Seq<(Seq<char>, Seq<Seq<char>>)>>,
}

impl DeepView for Manifest {
    type V = ManifestV;

    open spec fn deep_view(&self) -> ManifestV {
        ManifestV {
            actions: self.actions.deep_view(),
            author: self.author@,
            category: self.category.deep_view(),
            category_icon: self.category_icon.deep_view(),
            code_path: self.code_path@,
            code_path_mac: self.code_path_mac.deep_view(),
            code_path_win: self.code_path_win.deep_view(),
            description: self.description@,
            icon: self.icon@,
            name: self.name@,
            profiles: self.profiles.deep_view(),
            property_inspector_path: self.property_inspector_path.deep_view(),
            default_window_size: self.default_window_size,
            url: self.url.deep_view(),
            version: self.version@,
            sdk_version: self.sdk_version,
            os: self.os.deep_view(),
            software: self.software.deep_view(),
            applications_to_monitor: self.applications_to_monitor.deep_view(),
        }
    }
}

impl View for Manifest {
    type V = ManifestV;

    open spec fn view(&self) -> ManifestV {
        self.deep_view()
    }
}

/// The wire form of the optional profile list.
pub open spec fn opt_profiles_json(p: Option<Seq<ProfileV>>) -> Option<JsonV> {
    match p {
        Some(x) => Some(JsonV::Arr(spec_encode_list::<Profile>(x))),
        None => None,
    }
}

/// The wire form of the optional application-monitor map.
pub open spec fn opt_apps_json(m: Option<Seq<(Seq<char>, Seq<Seq<char>>)>>) -> Option<JsonV> {
    match m {
        Some(x) => Some(JsonV::Obj(spec_encode_apps(x))),
        None => None,
    }
}

impl JsonCodec for Manifest {
    open spec fn spec_enc(v: ManifestV) -> JsonV {
        let o = put(Seq::empty(), "Actions"@, JsonV::Arr(spec_encode_list::<Action>(v.actions)));
        let o = put(o, "Author"@, JsonV::Str(v.author));
        let o = put_opt(o, "Category"@, opt_str_json(v.category));
        let o = put_opt(o, "CategoryIcon"@, opt_str_json(v.category_icon));
        let o = put(o, "CodePath"@, JsonV::Str(v.code_path));
        let o = put_opt(o, "CodePathMac"@, opt_str_json(v.code_path_mac));
        let o = put_opt(o, "CodePathWin"@, opt_str_json(v.code_path_win));
        let o = put(o, "Description"@, JsonV::Str(v.description));
        let o = put(o, "Icon"@, JsonV::Str(v.icon));
        let o = put(o, "Name"@, JsonV::Str(v.name));
        let o = put_opt(o, "Profiles"@, opt_profiles_json(v.profiles));
        let o = put_opt(o, "PropertyInspectorPath"@, opt_str_json(v.property_inspector_path));
        let o = put(o, "DefaultWindowSize"@, spec_encode_window_size(v.default_window_size));
        let o = put_opt(o, "URL"@, opt_str_json(v.url));
        let o = put(o, "Version"@, JsonV::Str(v.version));
        let o = put(o, "SDKVersion"@, JsonV::Int(v.sdk_version as int));
        let o = put(o, "OS"@, JsonV::Arr(spec_encode_list::<OS>(v.os)));
        let o = put(o, "Software"@, Software::spec_enc(v.software));
        let o = put_opt(o, "ApplicationsToMonitor"@, opt_apps_json(v.applications_to_monitor));
        JsonV::Obj(o)
    }

    open spec fn spec_dec(j: JsonV) -> Result<ManifestV, ErrV> {
        match j {
            JsonV::Obj(o) => {
                let actions = match lookup(o, "Actions"@) {
                    Some(JsonV::Arr(a)) => spec_decode_list::<Action>(a),
                    Some(_) => Err(ErrV::TypeMismatch("Actions"@)),
                    None => Err(ErrV::MissingField("Actions"@)),
                };
                let author = spec_req_str(o, "Author"@);
                let category = spec_opt_str(o, "Category"@);
                let category_icon = spec_opt_str(o, "CategoryIcon"@);
                let code_path = spec_req_str(o, "CodePath"@);
                let code_path_mac = spec_opt_str(o, "CodePathMac"@);
                let code_path_win = spec_opt_str(o, "CodePathWin"@);
                let description = spec_req_str(o, "Description"@);
                let icon = spec_req_str(o, "Icon"@);
                let name = spec_req_str(o, "Name"@);
                let profiles = match lookup(o, "Profiles"@) {
                    Some(JsonV::Arr(a)) => match spec_decode_list::<Profile>(a) {
                        Ok(p) => Ok(Some(p)),
                        Err(e) => Err(e),
                    },
                    Some(_) => Err(ErrV::TypeMismatch("Profiles"@)),
                    None => Ok(None),
                };
                let pip = spec_opt_str(o, "PropertyInspectorPath"@);
                let default_window_size = match lookup(o, "DefaultWindowSize"@) {
                    Some(x) => spec_decode_window_size(x),
                    None => Ok(spec_default_window_size()),
                };
                let url = spec_opt_str(o, "URL"@);
                let version = spec_req_str(o, "Version"@);
                let sdk_version = spec_req_u32(o, "SDKVersion"@);
                let os = match lookup(o, "OS"@) {
                    Some(JsonV::Arr(a)) => spec_decode_list::<OS>(a),
                    Some(_) => Err(ErrV::TypeMismatch("OS"@)),
                    None => Err(ErrV::MissingField("OS"@)),
                };
                let software = match lookup(o, "Software"@) {
                    Some(x) => Software::spec_dec(x),
                    None => Err(ErrV::MissingField("Software"@)),
                };
                let apps = match lookup(o, "ApplicationsToMonitor"@) {
                    Some(JsonV::Obj(m)) => match spec_decode_apps(m) {
                        Ok(x) => Ok(Some(x)),
                        Err(e) => Err(e),
                    },
                    Some(_) => Err(ErrV::TypeMismatch("ApplicationsToMonitor"@)),
                    None => Ok(None),
                };
                if actions is Err {
                    Err(actions->Err_0)
                } else if author is Err {
                    Err(author->Err_0)
                } else if category is Err {
                    Err(category->Err_0)
                } else if category_icon is Err {
                    Err(category_icon->Err_0)
                } else if code_path is Err {
                    Err(code_path->Err_0)
                } else if code_path_mac is Err {
                    Err(code_path_mac->Err_0)
                } else if code_path_win is Err {
                    Err(code_path_win->Err_0)
                } else if description is Err {
                    Err(description->Err_0)
                } else if icon is Err {
                    Err(icon->Err_0)
                } else if name is Err {
                    Err(name->Err_0)
                } else if profiles is Err {
                    Err(profiles->Err_0)
                } else if pip is Err {
                    Err(pip->Err_0)
                } else if default_window_size is Err {
                    Err(default_window_size->Err_0)
                } else if url is Err {
                    Err(url->Err_0)
                } else if version is Err {
                    Err(version->Err_0)
                } else if sdk_version is Err {
                    Err(sdk_version->Err_0)
                } else if os is Err {
                    Err(os->Err_0)
                } else if software is Err {
                    Err(software->Err_0)
                } else if apps is Err {
                    Err(apps->Err_0)
                } else {
                    Ok(
                        (ManifestV {
                            actions: actions->Ok_0,
                            author: author->Ok_0,
                            category: category->Ok_0,
                            category_icon: category_icon->Ok_0,
                            code_path: code_path->Ok_0,
                            code_path_mac: code_path_mac->Ok_0,
                            code_path_win: code_path_win->Ok_0,
                            description: description->Ok_0,
                            icon: icon->Ok_0,
                            name: name->Ok_0,
                            profiles: profiles->Ok_0,
                            property_inspector_path: pip->Ok_0,
                            default_window_size: default_window_size->Ok_0,
                            url: url->Ok_0,
                            version: version->Ok_0,
                            sdk_version: sdk_version->Ok_0,
                            os: os->Ok_0,
                            software: software->Ok_0,
                            applications_to_monitor: apps->Ok_0,
                        }),
                    )
                }
            },
            _ => Err(ErrV::NotAnObject),
        }
    }

    fn enc(&self) -> (r: Json) {
        let mut o: Vec<(String, Json)> = Vec::new();
        proof {
            assert(jv_entries(o@) =~= Seq::<(Seq<char>, JsonV)>::empty());
        }
        put_field(&mut o, "Actions", Json::Arr(encode_list::<Action>(&self.actions)));
        put_field(&mut o, "Author", Json::Str(self.author.clone()));
        if let Some(x) = &self.category {
            put_field(&mut o, "Category", Json::Str(x.clone()));
        }
        if let Some(x) = &self.category_icon {
            put_field(&mut o, "CategoryIcon", Json::Str(x.clone()));
        }
        put_field(&mut o, "CodePath", Json::Str(self.code_path.clone()));
        if let Some(x) = &self.code_path_mac {
            put_field(&mut o, "CodePathMac", Json::Str(x.clone()));
        }
        if let Some(x) = &self.code_path_win {
            put_field(&mut o, "CodePathWin", Json::Str(x.clone()));
        }
        put_field(&mut o, "Description", Json::Str(self.description.clone()));
        put_field(&mut o, "Icon", Json::Str(self.icon.clone()));
        put_field(&mut o, "Name", Json::Str(self.name.clone()));
        if let Some(x) = &self.profiles {
            put_field(&mut o, "Profiles", Json::Arr(encode_list::<Profile>(x)));
        }
        if let Some(x) = &self.property_inspector_path {
            put_field(&mut o, "PropertyInspectorPath", Json::Str(x.clone()));
        }
        put_field(&mut o, "DefaultWindowSize", self.default_window_size.encode());
        if let Some(x) = &self.url {
            put_field(&mut o, "URL", Json::Str(x.clone()));
        }
        put_field(&mut o, "Version", Json::Str(self.version.clone()));
        put_field(&mut o, "SDKVersion", Json::Int(self.sdk_version as i64));
        put_field(&mut o, "OS", Json::Arr(encode_list::<OS>(&self.os)));
        put_field(&mut o, "Software", self.software.enc());
        if let Some(x) = &self.applications_to_monitor {
            put_field(&mut o, "ApplicationsToMonitor", Json::Obj(encode_apps(x)));
        }
        Json::Obj(o)
    }

    fn dec(j: &Json) -> (r: Result<Manifest, DecodeError>) {
        let o = match j {
            Json::Obj(o) => o,
            _ => {
                return Err(DecodeError::NotAnObject);
            },
        };
        let actions = match lookup_field(o, "Actions") {
            Some(Json::Arr(a)) => match decode_list::<Action>(a) {
                Ok(x) => x,
                Err(e) => {
                    return Err(e);
                },
            },
            Some(_) => {
                return Err(DecodeError::TypeMismatch("Actions".to_owned()));
            },
            None => {
                return Err(DecodeError::MissingField("Actions".to_owned()));
            },
        };
        let author = match req_str(o, "Author") {
            Ok(x) => x,
            Err(e) => {
                return Err(e);
            },
        };
        let category = match opt_str(o, "Category") {
            Ok(x) => x,
            Err(e) => {
                return Err(e);
            },
        };
        let category_icon = match opt_str(o, "CategoryIcon") {
            Ok(x) => x,
            Err(e) => {
                return Err(e);
            },
        };
        let code_path = match req_str(o, "CodePath") {
            Ok(x) => x,
            Err(e) => {
                return Err(e);
            },
        };
        let code_path_mac = match opt_str(o, "CodePathMac") {
            Ok(x) => x,
            Err(e) => {
                return Err(e);
            },
        };
        let code_path_win = match opt_str(o, "CodePathWin") {
            Ok(x) => x,
            Err(e) => {
                return Err(e);
            },
        };
        let description = match req_str(o, "Description") {
            Ok(x) => x,
            Err(e) => {
                return Err(e);
            },
        };
        let icon = match req_str(o, "Icon") {
            Ok(x) => x,
            Err(e) => {
                return Err(e);
            },
        };
        let name = match req_str(o, "Name") {
            Ok(x) => x,
            Err(e) => {
                return Err(e);
            },
        };
        let profiles = match lookup_field(o, "Profiles") {
            Some(Json::Arr(a)) => match decode_list::<Profile>(a) {
                Ok(x) => Some(x),
                Err(e) => {
                    return Err(e);
                },
            },
            Some(_) => {
                return Err(DecodeError::TypeMismatch("Profiles".to_owned()));
            },
            None => None,
        };
        let property_inspector_path = match opt_str(o, "PropertyInspectorPath") {
            Ok(x) => x,
            Err(e) => {
                return Err(e);
            },
        };
        let default_window_size = match lookup_field(o, "DefaultWindowSize") {
            Some(x) => match WindowSize::decode(x) {
                Ok(w) => w,
                Err(e) => {
                    return Err(e);
                },
            },
            None => WindowSize::default(),
        };
        let url = match opt_str(o, "URL") {
            Ok(x) => x,
            Err(e) => {
                return Err(e);
            },
        };
        let version = match req_str(o, "Version") {
            Ok(x) => x,
            Err(e) => {
                return Err(e);
            },
        };
        let sdk_version = match req_u32(o, "SDKVersion") {
            Ok(x) => x,
            Err(e) => {
                return Err(e);
            },
        };
        let os = match lookup_field(o, "OS") {
            Some(Json::Arr(a)) => match decode_list::<OS>(a) {
                Ok(x) => x,
                Err(e) => {
                    return Err(e);
                },
            },
            Some(_) => {
                return Err(DecodeError::TypeMismatch("OS".to_owned()));
            },
            None => {
                return Err(DecodeError::MissingField("OS".to_owned()));
            },
        };
        let software = match lookup_field(o, "Software") {
            Some(x) => match Software::dec(x) {
                Ok(s) => s,
                Err(e) => {
                    return Err(e);
                },
            },
            None => {
                return Err(DecodeError::MissingField("Software".to_owned()));
            },
        };
        let applications_to_monitor = match lookup_field(o, "ApplicationsToMonitor") {
            Some(Json::Obj(m)) => match decode_apps(m) {
                Ok(x) => Some(x),
                Err(e) => {
                    return Err(e);
                },
            },
            Some(_) => {
                return Err(DecodeError::TypeMismatch("ApplicationsToMonitor".to_owned()));
            },
            None => None,
        };
        Ok(
            (Manifest {
                actions: actions,
                author: author,
                category: category,
                category_icon: category_icon,
                code_path: code_path,
                code_path_mac: code_path_mac,
                code_path_win: code_path_win,
                description: description,
                icon: icon,
                name: name,
                profiles: profiles,
                property_inspector_path: property_inspector_path,
                default_window_size: default_window_size,
                url: url,
                version: version,
                sdk_version: sdk_version,
                os: os,
                software: software,
                applications_to_monitor: applications_to_monitor,
            }),
        )
    }

    #[verifier::rlimit(100)]
    #[verifier::spinoff_prover]
    proof fn lemma_round_trip(v: ManifestV) {
        reveal_strlit("Actions");
        reveal_strlit("Author");
        reveal_strlit("Category");
        reveal_strlit("CategoryIcon");
        reveal_strlit("CodePath");
        reveal_strlit("CodePathMac");
        reveal_strlit("CodePathWin");
        reveal_strlit("Description");
        reveal_strlit("Icon");
        reveal_strlit("Name");
        reveal_strlit("Profiles");
        reveal_strlit("PropertyInspectorPath");
        reveal_strlit("DefaultWindowSize");
        reveal_strlit("URL");
        reveal_strlit("Version");
        reveal_strlit("SDKVersion");
        reveal_strlit("OS");
        reveal_strlit("Software");
        reveal_strlit("ApplicationsToMonitor");
        assert("Actions"@.len() == 7);
        assert("Author"@.len() == 6);
        assert("Category"@.len() == 8);
        assert("CategoryIcon"@.len() == 12);
        assert("CodePath"@.len() == 8);
        assert("CodePathMac"@.len() == 11);
        assert("CodePathWin"@.len() == 11);
        assert("Description"@.len() == 11);
        assert("Icon"@.len() == 4);
        assert("Name"@.len() == 4);
        assert("Profiles"@.len() == 8);
        assert("PropertyInspectorPath"@.len() == 21);
        assert("DefaultWindowSize"@.len() == 17);
        assert("URL"@.len() == 3);
        assert("Version"@.len() == 7);
        assert("SDKVersion"@.len() == 10);
        assert("OS"@.len() == 2);
        assert("Software"@.len() == 8);
        assert("ApplicationsToMonitor"@.len() == 21);
        assert("Actions"@[0] != "Version"@[0]);
        assert("Category"@[1] != "CodePath"@[1]);
        assert("Category"@[0] != "Profiles"@[0]);
        assert("Category"@[0] != "Software"@[0]);
        assert("CodePath"@[0] != "Profiles"@[0]);
        assert("CodePath"@[0] != "Software"@[0]);
        assert("Profiles"@[0] != "Software"@[0]);
        assert("CodePathMac"@[8] != "CodePathWin"@[8]);
        assert("CodePathMac"@[0] != "Description"@[0]);
        assert("CodePathWin"@[0] != "Description"@[0]);
        assert("Icon"@[0] != "Name"@[0]);
        assert("PropertyInspectorPath"@[0] != "ApplicationsToMonitor"@[0]);
        let o = Manifest::spec_enc(v)->Obj_0;
        assert(lookup(o, "Actions"@) == Some(
            JsonV::Arr(spec_encode_list::<Action>(v.actions)),
        ));
        assert(lookup(o, "Author"@) == Some(JsonV::Str(v.author)));
        assert(lookup(o, "Category"@) == opt_str_json(v.category));
        assert(lookup(o, "CategoryIcon"@) == opt_str_json(v.category_icon));
        assert(lookup(o, "CodePath"@) == Some(JsonV::Str(v.code_path)));
        assert(lookup(o, "CodePathMac"@) == opt_str_json(v.code_path_mac));
        assert(lookup(o, "CodePathWin"@) == opt_str_json(v.code_path_win));
        assert(lookup(o, "Description"@) == Some(JsonV::Str(v.description)));
        assert(lookup(o, "Icon"@) == Some(JsonV::Str(v.icon)));
        assert(lookup(o, "Name"@) == Some(JsonV::Str(v.name)));
        assert(lookup(o, "Profiles"@) == opt_profiles_json(v.profiles));
        assert(lookup(o, "PropertyInspectorPath"@) == opt_str_json(
            v.property_inspector_path,
        ));
        assert(lookup(o, "DefaultWindowSize"@) == Some(
            spec_encode_window_size(v.default_window_size),
        ));
        assert(lookup(o, "URL"@) == opt_str_json(v.url));
        assert(lookup(o, "Version"@) == Some(JsonV::Str(v.version)));
        assert(lookup(o, "SDKVersion"@) == Some(JsonV::Int(v.sdk_version as int)));
        assert(lookup(o, "OS"@) == Some(JsonV::Arr(spec_encode_list::<OS>(v.os))));
        assert(lookup(o, "Software"@) == Some(Software::spec_enc(v.software)));
        assert(lookup(o, "ApplicationsToMonitor"@) == opt_apps_json(
            v.applications_to_monitor,
        ));
        lemma_list_round_trip::<Action>(v.actions);
        lemma_list_round_trip::<OS>(v.os);
        Software::lemma_round_trip(v.software);
        lemma_window_size_round_trip(v.default_window_size);
        if let Some(p) = v.profiles {
            lemma_list_round_trip::<Profile>(p);
        }
        if let Some(m) = v.applications_to_monitor {
            lemma_apps_round_trip(m);
        }
    }
}

} // verus!

use vstd::prelude::*;

use crate::args::XcProvisioningProfileDirKind;
use crate::decode::{decode, decode_spec, property_list_of};
use crate::envelope::{unwrap_container, unwrap_spec};
use crate::payload::{find_entry, lookup, PayloadValue, Timestamp};
use crate::project::{entries_model, project, project_spec, DisplayModel, DisplayValue};

verus! {

/// What stands for a value that is missing.
pub const NOT_AVAILABLE: &'static str = "_";

/// Start of the name given to a profile that could not be read.
pub const FAILURE_PREFIX: &'static str = "failed to parse file ";

/// One provisioning profile, with the fields that the listings show. A field is
/// `None` where the payload lacks it or holds a value of another kind there.
#[derive(Debug, PartialEq)]
pub struct PrivisionFileData {
    pub app_id_name: Option<String>,
    pub name: Option<String>,
    pub team_name: Option<String>,
    /// Whether Xcode manages the profile.
    pub xc_managed: Option<bool>,
    pub app_id_prefixes: Option<Vec<String>>,
    /// Expiration date.
    pub exp_date: Option<Timestamp>,
    /// The entitlement `application-identifier`.
    pub ent_app_id: Option<String>,
    /// Number of provisioned devices.
    pub provisioned_devices: Option<usize>,
    pub file_path: String,
    pub local_provision: Option<bool>,
    pub uuid: Option<String>,
    /// The whole payload in display form, keys in the payload's order.
    pub properties: Vec<(String, DisplayValue)>,
    pub creation_date: Option<Timestamp>,
    /// The entitlement `com.apple.developer.team-identifier`.
    pub ent_team_id: Option<String>,
    pub platforms: Option<Vec<String>>,
    /// The lookup directory the file was found in.
    pub xc_kind: XcProvisioningProfileDirKind,
}

/// The mathematical form of a profile record.
pub struct ProfileModel {
    pub app_id_name: Option<Seq<char>>,
    pub name: Option<Seq<char>>,
    pub team_name: Option<Seq<char>>,
    pub xc_managed: Option<bool>,
    pub app_id_prefixes: Option<Seq<Seq<char>>>,
    pub exp_date: Option<Timestamp>,
    pub ent_app_id: Option<Seq<char>>,
    pub provisioned_devices: Option<nat>,
    pub file_path: Seq<char>,
    pub local_provision: Option<bool>,
    pub uuid: Option<Seq<char>>,
    pub properties: Seq<(Seq<char>, DisplayModel)>,
    pub creation_date: Option<Timestamp>,
    pub ent_team_id: Option<Seq<char>>,
    pub platforms: Option<Seq<Seq<char>>>,
    pub xc_kind: XcProvisioningProfileDirKind,
}

pub open spec fn opt_text(o: Option<String>) -> Option<Seq<char>> {
    match o {
        Some(s) => Some(s@),
        None => None,
    }
}

pub open spec fn opt_texts(o: Option<Vec<String>>) -> Option<Seq<Seq<char>>> {
    match o {
        Some(v) => Some(v@.map_values(|s: String| s@)),
        None => None,
    }
}

pub open spec fn opt_count(o: Option<usize>) -> Option<nat> {
    match o {
        Some(n) => Some(n as nat),
        None => None,
    }
}

impl View for PrivisionFileData {
    type V = ProfileModel;

    open spec fn view(&self) -> ProfileModel {
        ProfileModel {
            app_id_name: opt_text(self.app_id_name),
            name: opt_text(self.name),
            team_name: opt_text(self.team_name),
            xc_managed: self.xc_managed,
            app_id_prefixes: opt_texts(self.app_id_prefixes),
            exp_date: self.exp_date,
            ent_app_id: opt_text(self.ent_app_id),
            provisioned_devices: opt_count(self.provisioned_devices),
            file_path: self.file_path@,
            local_provision: self.local_provision,
            uuid: opt_text(self.uuid),
            properties: entries_model(self.properties@),
            creation_date: self.creation_date,
            ent_team_id: opt_text(self.ent_team_id),
            platforms: opt_texts(self.platforms),
            xc_kind: self.xc_kind,
        }
    }
}

/// The text held by a value that is a string.
pub open spec fn text_of(v: Option<PayloadValue>) -> Option<Seq<char>> {
    match v {
        Some(PayloadValue::String(s)) => Some(s@),
        _ => None,
    }
}

/// The flag held by a value that is a boolean.
pub open spec fn bool_of(v: Option<PayloadValue>) -> Option<bool> {
    match v {
        Some(PayloadValue::Boolean(b)) => Some(b),
        _ => None,
    }
}

/// The instant held by a value that is a date.
pub open spec fn date_of(v: Option<PayloadValue>) -> Option<Timestamp> {
    match v {
        Some(PayloadValue::Date(t)) => Some(t),
        _ => None,
    }
}

/// The number of elements of a value that is a sequence.
pub open spec fn count_of(v: Option<PayloadValue>) -> Option<nat> {
    match v {
        Some(PayloadValue::Sequence(s)) => Some(s@.len()),
        _ => None,
    }
}

/// An element of a list of texts: its text, or the marker of a missing value.
pub open spec fn element_text(e: PayloadValue) -> Seq<char> {
    match e {
        PayloadValue::String(s) => s@,
        _ => NOT_AVAILABLE@,
    }
}

/// The texts of a value that is a sequence, one per element, in order.
pub open spec fn texts_of(v: Option<PayloadValue>) -> Option<Seq<Seq<char>>> {
    match v {
        Some(PayloadValue::Sequence(s)) => Some(s@.map_values(|e: PayloadValue| element_text(e))),
        _ => None,
    }
}

/// The entries of the payload's entitlements, or none where it has no such dictionary.
pub open spec fn entitlements_of(pl: Seq<(String, PayloadValue)>) -> Seq<(String, PayloadValue)> {
    match lookup(pl, "Entitlements"@) {
        Some(PayloadValue::Mapping(m)) => m@,
        _ => Seq::empty(),
    }
}

/// The record that the entries of a payload's top-level dictionary give.
pub open spec fn normalize_spec(
    pl: Seq<(String, PayloadValue)>,
    path: Seq<char>,
    kind: XcProvisioningProfileDirKind,
) -> ProfileModel {
    ProfileModel {
        app_id_name: text_of(lookup(pl, "AppIDName"@)),
        name: text_of(lookup(pl, "Name"@)),
        team_name: text_of(lookup(pl, "TeamName"@)),
        xc_managed: bool_of(lookup(pl, "IsXcodeManaged"@)),
        app_id_prefixes: texts_of(lookup(pl, "ApplicationIdentifierPrefix"@)),
        exp_date: date_of(lookup(pl, "ExpirationDate"@)),
        ent_app_id: text_of(lookup(entitlements_of(pl), "application-identifier"@)),
        provisioned_devices: count_of(lookup(pl, "ProvisionedDevices"@)),
        file_path: path,
        local_provision: bool_of(lookup(pl, "LocalProvision"@)),
        uuid: text_of(lookup(pl, "UUID"@)),
        properties: Seq::new(pl.len(), |i: int| (pl[i].0@, project_spec(pl[i].1))),
        creation_date: date_of(lookup(pl, "CreationDate"@)),
        ent_team_id: text_of(lookup(entitlements_of(pl), "com.apple.developer.team-identifier"@)),
        platforms: texts_of(lookup(pl, "Platform"@)),
        xc_kind: kind,
    }
}

/// The record that stands for a file that could not be read: it names the file.
pub open spec fn failed_spec(path: Seq<char>, kind: XcProvisioningProfileDirKind) -> ProfileModel {
    ProfileModel {
        app_id_name: None,
        name: Some(FAILURE_PREFIX@ + path),
        team_name: None,
        xc_managed: None,
        app_id_prefixes: None,
        exp_date: None,
        ent_app_id: None,
        provisioned_devices: None,
        file_path: path,
        local_provision: None,
        uuid: None,
        properties: Seq::empty(),
        creation_date: None,
        ent_team_id: None,
        platforms: None,
        xc_kind: kind,
    }
}

pub open spec fn record_result_view(r: Result<PrivisionFileData, PrivisionFileData>) -> Result<
    ProfileModel,
    ProfileModel,
> {
    match r {
        Ok(p) => Ok(p@),
        Err(p) => Err(p@),
    }
}

/// What reading the bytes of a profile file gives: its record, or the placeholder.
pub open spec fn parse_file_spec(
    bytes: Seq<u8>,
    path: Seq<char>,
    kind: XcProvisioningProfileDirKind,
) -> Result<ProfileModel, ProfileModel> {
    match unwrap_spec(bytes) {
        Err(_) => Err(failed_spec(path, kind)),
        Ok(payload) => match decode_spec(property_list_of(payload)) {
            Ok(m) => Ok(normalize_spec(m@, path, kind)),
            Err(_) => Err(failed_spec(path, kind)),
        },
    }
}

/// A possibly missing text, with the marker of a missing value in its place.
pub trait UnwrapOrNa {
    spec fn or_na_view(&self) -> Seq<char>;

    fn unwrap_or_na(&self) -> (r: String)
        ensures
            r@ == self.or_na_view(),
    ;
}

pub open spec fn or_na(o: Option<Seq<char>>) -> Seq<char> {
    match o {
        Some(s) => s,
        None => NOT_AVAILABLE@,
    }
}

impl UnwrapOrNa for Option<String> {
    open spec fn or_na_view(&self) -> Seq<char> {
        or_na(opt_text(*self))
    }

    fn unwrap_or_na(&self) -> (r: String) {
        match self {
            Some(s) => s.clone(),
            None => NOT_AVAILABLE.to_owned(),
        }
    }
}

/// The text of a value that may be missing and may not be a string.
pub trait OptValueAsBoxStr {
    spec fn text_view(&self) -> Option<Seq<char>>;

    fn as_box_str(&self) -> (r: Option<String>)
        ensures
            opt_text(r) == self.text_view(),
    ;
}

impl<'a> OptValueAsBoxStr for Option<&'a PayloadValue> {
    open spec fn text_view(&self) -> Option<Seq<char>> {
        match *self {
            Some(v) => text_of(Some(*v)),
            None => None,
        }
    }

    fn as_box_str(&self) -> (r: Option<String>) {
        match self {
            Some(PayloadValue::String(s)) => Some(s.clone()),
            _ => None,
        }
    }
}

/// The text stored under `key`.
fn text_entry(pl: &Vec<(String, PayloadValue)>, key: &str) -> (r: Option<String>)
    ensures
        opt_text(r) == text_of(lookup(pl@, key@)),
{
    find_entry(pl, key).as_box_str()
}

/// The flag stored under `key`.
fn bool_entry(pl: &Vec<(String, PayloadValue)>, key: &str) -> (r: Option<bool>)
    ensures
        r == bool_of(lookup(pl@, key@)),
{
    match find_entry(pl, key) {
        Some(PayloadValue::Boolean(b)) => Some(*b),
        _ => None,
    }
}

/// The instant stored under `key`.
fn date_entry(pl: &Vec<(String, PayloadValue)>, key: &str) -> (r: Option<Timestamp>)
    ensures
        r == date_of(lookup(pl@, key@)),
{
    match find_entry(pl, key) {
        Some(PayloadValue::Date(t)) => Some(*t),
        _ => None,
    }
}

/// The number of elements of the sequence stored under `key`.
fn count_entry(pl: &Vec<(String, PayloadValue)>, key: &str) -> (r: Option<usize>)
    ensures
        opt_count(r) == count_of(lookup(pl@, key@)),
{
    match find_entry(pl, key) {
        Some(PayloadValue::Sequence(s)) => Some(s.len()),
        _ => None,
    }
}

/// The texts of the sequence stored under `key`; an element that is not a string
/// keeps its place as the marker of a missing value.
fn texts_entry(pl: &Vec<(String, PayloadValue)>, key: &str) -> (r: Option<Vec<String>>)
    ensures
        opt_texts(r) == texts_of(lookup(pl@, key@)),
{
    match find_entry(pl, key) {
        Some(PayloadValue::Sequence(s)) => {
            let mut out: Vec<String> = Vec::new();
            let mut i: usize = 0;
            while i < s.len()
                invariant
                    i <= s@.len(),
                    out@.len() == i,
                    forall|j: int| 0 <= j < i ==> (#[trigger] out@[j])@ == element_text(s@[j]),
                decreases s@.len() - i,
            {
                let text = match &s[i] {
                    PayloadValue::String(t) => t.clone(),
                    _ => NOT_AVAILABLE.to_owned(),
                };
                out.push(text);
                i += 1;
            }
            assert(out@.map_values(|x: String| x@) =~= s@.map_values(
                |e: PayloadValue| element_text(e),
            ));
            Some(out)
        },
        _ => None,
    }
}

/// The display form of each entry of the payload, keys kept, in order.
pub fn project_entries(pl: &Vec<(String, PayloadValue)>) -> (r: Vec<(String, DisplayValue)>)
    ensures
        entries_model(r@) == Seq::new(pl@.len(), |i: int| (pl@[i].0@, project_spec(pl@[i].1))),
{
    let mut out: Vec<(String, DisplayValue)> = Vec::new();
    let mut i: usize = 0;
    while i < pl.len()
        invariant
            i <= pl@.len(),
            out@.len() == i,
            forall|j: int|
                0 <= j < i ==> (#[trigger] out@[j]).0@ == pl@[j].0@ && out@[j].1.model()
                    == project_spec(pl@[j].1),
        decreases pl@.len() - i,
    {
        let d = project(&pl[i].1);
        out.push((pl[i].0.clone(), d));
        i += 1;
    }
    assert(entries_model(out@) =~= Seq::new(
        pl@.len(),
        |i: int| (pl@[i].0@, project_spec(pl@[i].1)),
    ));
    out
}

/// Reads the record of one profile from the entries of its payload's top-level
/// dictionary. Each field is read on its own; a missing or ill-typed one is `None`.
pub fn normalize(
    pl: &Vec<(String, PayloadValue)>,
    file_path: String,
    xc_kind: XcProvisioningProfileDirKind,
) -> (r: PrivisionFileData)
    ensures
        r@ == normalize_spec(pl@, file_path@, xc_kind),
{
    let fallback_entitlements: Vec<(String, PayloadValue)> = Vec::new();
    let ent = match find_entry(pl, "Entitlements") {
        Some(PayloadValue::Mapping(m)) => m,
        _ => &fallback_entitlements,
    };
    assert(ent@ == entitlements_of(pl@));
    PrivisionFileData {
        app_id_name: text_entry(pl, "AppIDName"),
        name: text_entry(pl, "Name"),
        team_name: text_entry(pl, "TeamName"),
        xc_managed: bool_entry(pl, "IsXcodeManaged"),
        app_id_prefixes: texts_entry(pl, "ApplicationIdentifierPrefix"),
        exp_date: date_entry(pl, "ExpirationDate"),
        ent_app_id: text_entry(ent, "application-identifier"),
        provisioned_devices: count_entry(pl, "ProvisionedDevices"),
        file_path,
        local_provision: bool_entry(pl, "LocalProvision"),
        uuid: text_entry(pl, "UUID"),
        properties: project_entries(pl),
        creation_date: date_entry(pl, "CreationDate"),
        ent_team_id: text_entry(ent, "com.apple.developer.team-identifier"),
        platforms: texts_entry(pl, "Platform"),
        xc_kind,
    }
}

/// The placeholder record of a file that could not be read or decoded.
pub fn failed_record(file_path: String, xc_kind: XcProvisioningProfileDirKind) -> (r:
    PrivisionFileData)
    ensures
        r@ == failed_spec(file_path@, xc_kind),
{
    let name = FAILURE_PREFIX.to_owned().concat(file_path.as_str());
    let r = PrivisionFileData {
        app_id_name: None,
        name: Some(name),
        team_name: None,
        xc_managed: None,
        app_id_prefixes: None,
        exp_date: None,
        ent_app_id: None,
        provisioned_devices: None,
        file_path,
        local_provision: None,
        uuid: None,
        properties: Vec::new(),
        creation_date: None,
        ent_team_id: None,
        platforms: None,
        xc_kind,
    };
    assert(r@.properties =~= Seq::<(Seq<char>, DisplayModel)>::empty());
    r
}

/// Reads one profile file's bytes: the record, or, where the container cannot be
/// unwrapped or its payload decoded, the placeholder that names the file.
pub fn parse_file(
    bytes: &[u8],
    file_path: String,
    xc_kind: XcProvisioningProfileDirKind,
) -> (r: Result<PrivisionFileData, PrivisionFileData>)
    ensures
        record_result_view(r) == parse_file_spec(bytes@, file_path@, xc_kind),
{
    let payload = match unwrap_container(bytes) {
        Ok(p) => p,
        Err(_) => {
            return Err(failed_record(file_path, xc_kind));
        },
    };
    match decode(payload.as_slice()) {
        Ok(pl) => Ok(normalize(&pl, file_path, xc_kind)),
        Err(_) => Err(failed_record(file_path, xc_kind)),
    }
}

/// Reading the same bytes twice, under the same path and directory kind, gives
/// records that are equal in every field: unwrapping, decoding and normalizing
/// depend on nothing but their inputs.
pub proof fn parse_file_is_repeatable(
    bytes: Seq<u8>,
    path: Seq<char>,
    kind: XcProvisioningProfileDirKind,
    first: Result<PrivisionFileData, PrivisionFileData>,
    second: Result<PrivisionFileData, PrivisionFileData>,
)
    requires
        record_result_view(first) == parse_file_spec(bytes, path, kind),
        record_result_view(second) == parse_file_spec(bytes, path, kind),
    ensures
        record_result_view(first) == record_result_view(second),
{
}

/// The device count is the length of the device list: zero for an empty list, and
/// missing only where the payload has no list under that key.
pub proof fn device_count_boundary(
    pl: Seq<(String, PayloadValue)>,
    path: Seq<char>,
    kind: XcProvisioningProfileDirKind,
)
    ensures
        lookup(pl, "ProvisionedDevices"@) matches Some(PayloadValue::Sequence(v)) ==> normalize_spec(
            pl,
            path,
            kind,
        ).provisioned_devices == Some(v@.len()),
        lookup(pl, "ProvisionedDevices"@) matches Some(PayloadValue::Sequence(v)) && v@.len() == 0
            ==> normalize_spec(pl, path, kind).provisioned_devices == Some(0nat),
        lookup(pl, "ProvisionedDevices"@) is None ==> normalize_spec(
            pl,
            path,
            kind,
        ).provisioned_devices is None,
{
}

/// Without an entitlements dictionary both entitlement fields are missing, and every
/// other field is read as it would be anyway.
pub proof fn missing_entitlements_touch_only_entitlement_fields(
    pl: Seq<(String, PayloadValue)>,
    path: Seq<char>,
    kind: XcProvisioningProfileDirKind,
)
    requires
        !(lookup(pl, "Entitlements"@) matches Some(PayloadValue::Mapping(_))),
    ensures
        normalize_spec(pl, path, kind).ent_app_id is None,
        normalize_spec(pl, path, kind).ent_team_id is None,
        normalize_spec(pl, path, kind).name == text_of(lookup(pl, "Name"@)),
        normalize_spec(pl, path, kind).app_id_name == text_of(lookup(pl, "AppIDName"@)),
        normalize_spec(pl, path, kind).team_name == text_of(lookup(pl, "TeamName"@)),
        normalize_spec(pl, path, kind).uuid == text_of(lookup(pl, "UUID"@)),
        normalize_spec(pl, path, kind).exp_date == date_of(lookup(pl, "ExpirationDate"@)),
{
    assert(entitlements_of(pl) =~= Seq::empty());
}

} // verus!

//! Device registry: device and group kinds, and the choice of listing query.

use vstd::prelude::*;

use crate::error::Error;
use crate::text::{concat, lower_of, lowercase, opt_text, same_text};

verus! {

/// Available device types.
#[derive(PartialEq, Eq, Structural, Clone, Copy, Debug)]
pub enum DeviceType {
    Vehicle,
    Other,
}

impl DeviceType {
    /// The value that the lower-case word `w` names, if any.
    pub open spec fn named(w: Seq<char>) -> Option<DeviceType> {
        if w == "vehicle"@ {
            Some(DeviceType::Vehicle)
        } else if w == "other"@ {
            Some(DeviceType::Other)
        } else {
            None
        }
    }

    /// The words that name a value, one for each.
    pub open spec fn words() -> Seq<Seq<char>> {
        seq!["vehicle"@, "other"@]
    }

    /// The message of the error for the unknown word `s`.
    pub open spec fn unknown_message(s: Seq<char>) -> Seq<char> {
        "unknown `DeviceType`: "@ + s
    }

    /// `r` is what reading the word `s` gives, once lowered to `w`.
    pub open spec fn reads_as(w: Seq<char>, s: Seq<char>, r: Result<DeviceType, Error>) -> bool {
        match DeviceType::named(w) {
            Some(v) => r == Ok::<DeviceType, Error>(v),
            None => r matches Err(e) && e.is_parse(DeviceType::unknown_message(s)),
        }
    }

    /// Reads `w`, the lower-case form of the word `s` as given.
    pub fn from_lowercase(w: &str, s: &str) -> (r: Result<DeviceType, Error>)
        ensures
            DeviceType::reads_as(w@, s@, r),
    {
        if same_text(w, "vehicle") {
            Ok(DeviceType::Vehicle)
        } else if same_text(w, "other") {
            Ok(DeviceType::Other)
        } else {
            Err(Error::Parse(concat("unknown `DeviceType`: ", s)))
        }
    }

    /// Reads the word `s`, ignoring case.
    pub fn parse(s: &str) -> (r: Result<DeviceType, Error>)
        ensures
            DeviceType::reads_as(lower_of(s@), s@, r),
    {
        let w = lowercase(s);
        DeviceType::from_lowercase(w.as_str(), s)
    }

    /// Exactly the listed words name a value.
    pub proof fn closed_vocabulary(w: Seq<char>)
        ensures
            DeviceType::named(w) is Some <==> DeviceType::words().contains(w),
    {
        if DeviceType::named(w) is Some {
            if w == "vehicle"@ {
                assert(DeviceType::words()[0] == w);
            }
            if w == "other"@ {
                assert(DeviceType::words()[1] == w);
            }
        }
    }
}

impl std::str::FromStr for DeviceType {
    type Err = Error;

    fn from_str(s: &str) -> Result<DeviceType, Error> {
        DeviceType::parse(s)
    }
}
/// Available group types.
#[derive(PartialEq, Eq, Structural, Clone, Copy, Debug)]
pub enum GroupType {
    Static,
    Dynamic,
}

impl GroupType {
    /// The value that the lower-case word `w` names, if any.
    pub open spec fn named(w: Seq<char>) -> Option<GroupType> {
        if w == "static"@ {
            Some(GroupType::Static)
        } else if w == "dynamic"@ {
            Some(GroupType::Dynamic)
        } else {
            None
        }
    }

    /// The words that name a value, one for each.
    pub open spec fn words() -> Seq<Seq<char>> {
        seq!["static"@, "dynamic"@]
    }

    /// The message of the error for the unknown word `s`.
    pub open spec fn unknown_message(s: Seq<char>) -> Seq<char> {
        "unknown `GroupType`: "@ + s
    }

    /// `r` is what reading the word `s` gives, once lowered to `w`.
    pub open spec fn reads_as(w: Seq<char>, s: Seq<char>, r: Result<GroupType, Error>) -> bool {
        match GroupType::named(w) {
            Some(v) => r == Ok::<GroupType, Error>(v),
            None => r matches Err(e) && e.is_parse(GroupType::unknown_message(s)),
        }
    }

    /// Reads `w`, the lower-case form of the word `s` as given.
    pub fn from_lowercase(w: &str, s: &str) -> (r: Result<GroupType, Error>)
        ensures
            GroupType::reads_as(w@, s@, r),
    {
        if same_text(w, "static") {
            Ok(GroupType::Static)
        } else if same_text(w, "dynamic") {
            Ok(GroupType::Dynamic)
        } else {
            Err(Error::Parse(concat("unknown `GroupType`: ", s)))
        }
    }

    /// Reads the word `s`, ignoring case.
    pub fn parse(s: &str) -> (r: Result<GroupType, Error>)
        ensures
            GroupType::reads_as(lower_of(s@), s@, r),
    {
        let w = lowercase(s);
        GroupType::from_lowercase(w.as_str(), s)
    }

    /// Exactly the listed words name a value.
    pub proof fn closed_vocabulary(w: Seq<char>)
        ensures
            GroupType::named(w) is Some <==> GroupType::words().contains(w),
    {
        if GroupType::named(w) is Some {
            if w == "static"@ {
                assert(GroupType::words()[0] == w);
            }
            if w == "dynamic"@ {
                assert(GroupType::words()[1] == w);
            }
        }
    }
}

impl std::str::FromStr for GroupType {
    type Err = Error;

    fn from_str(s: &str) -> Result<GroupType, Error> {
        GroupType::parse(s)
    }
}
impl DeviceType {
    /// The name the registry knows this type by.
    pub open spec fn text(self) -> Seq<char> {
        match self {
            DeviceType::Vehicle => "Vehicle"@,
            DeviceType::Other => "Other"@,
        }
    }

    /// The name the registry knows this type by.
    pub fn to_string(&self) -> (r: String)
        ensures
            r@ == self.text(),
    {
        match self {
            DeviceType::Vehicle => "Vehicle".to_owned(),
            DeviceType::Other => "Other".to_owned(),
        }
    }

    /// The type chosen by the `--vehicle` and `--other` flags; `--vehicle` wins.
    pub fn from_args(vehicle: bool, other: bool) -> (r: Result<DeviceType, Error>)
        ensures
            vehicle ==> r == Ok::<DeviceType, Error>(DeviceType::Vehicle),
            !vehicle && other ==> r == Ok::<DeviceType, Error>(DeviceType::Other),
            !vehicle && !other ==> (r matches Err(e) && e.is_args(
                "Either --vehicle or --other flag is required"@,
            )),
    {
        if vehicle {
            Ok(DeviceType::Vehicle)
        } else if other {
            Ok(DeviceType::Other)
        } else {
            Err(Error::Args("Either --vehicle or --other flag is required".to_owned()))
        }
    }
}

impl GroupType {
    /// The name the registry knows this type by.
    pub open spec fn text(self) -> Seq<char> {
        match self {
            GroupType::Static => "static"@,
            GroupType::Dynamic => "dynamic"@,
        }
    }

    /// The name the registry knows this type by.
    pub fn to_string(&self) -> (r: String)
        ensures
            r@ == self.text(),
    {
        match self {
            GroupType::Static => "static".to_owned(),
            GroupType::Dynamic => "dynamic".to_owned(),
        }
    }
}

/// The 128-bit value of the UUID that `uuid::Uuid::parse_str` reads from `s`;
/// none where it rejects `s`.
pub uninterp spec fn uuid_value(s: Seq<char>) -> Option<u128>;

/// Relies on `uuid::Uuid::parse_str`, which accepts the simple, hyphenated,
/// URN and braced forms, and on `Uuid::as_u128` for the value read.
#[verifier::external_body]
fn parse_uuid(s: &str) -> (r: Result<u128, String>)
    ensures
        match r {
            Ok(v) => uuid_value(s@) == Some(v),
            Err(_) => uuid_value(s@) is None,
        },
{
    match uuid::Uuid::parse_str(s) {
        Ok(u) => Ok(u.as_u128()),
        Err(e) => Err(e.to_string()),
    }
}

/// An optional identifier argument, read: `Some(None)` where it is absent,
/// `Some(Some(v))` where it reads as `v`, `None` where it does not read.
pub open spec fn read_id(o: Option<Seq<char>>) -> Option<Option<u128>> {
    match o {
        None => Some(None),
        Some(s) => match uuid_value(s) {
            Some(v) => Some(Some(v)),
            None => None,
        },
    }
}

fn parse_id(o: Option<&str>) -> (r: Result<Option<u128>, Error>)
    ensures
        match read_id(opt_text(o)) {
            Some(v) => r == Ok::<Option<u128>, Error>(v),
            None => r matches Err(e) && e is Uuid,
        },
{
    match o {
        None => Ok(None),
        Some(s) => match parse_uuid(s) {
            Ok(v) => Ok(Some(v)),
            Err(m) => Err(Error::Uuid(m)),
        },
    }
}

/// Reads the `--all`, `--device` and `--group` arguments of a listing
/// command; the device identifier is read first.
pub fn parse_list_args(all: bool, device: Option<&str>, group: Option<&str>) -> (r: Result<
    (bool, Option<u128>, Option<u128>),
    Error,
>)
    ensures
        match (read_id(opt_text(device)), read_id(opt_text(group))) {
            (Some(d), Some(g)) => r == Ok::<(bool, Option<u128>, Option<u128>), Error>((all, d, g)),
            _ => r matches Err(e) && e is Uuid,
        },
{
    let d = match parse_id(device) {
        Ok(d) => d,
        Err(e) => return Err(e),
    };
    let g = match parse_id(group) {
        Ok(g) => g,
        Err(e) => return Err(e),
    };
    Ok((all, d, g))
}

/// What a listing command lists: everything, by device, or by group.
#[derive(PartialEq, Eq, Structural, Clone, Copy, Debug)]
pub enum Listing {
    All,
    ByDevice(u128),
    ByGroup(u128),
}

/// The message of the error for a listing command without a selector.
pub open spec fn no_listing_message() -> Seq<char> {
    "one of --all, --device, or --group required"@
}

/// The listing that the selectors choose: `--all` first, then `--device`,
/// then `--group`; `None` where none is given.
pub open spec fn chosen_listing(all: bool, device: Option<u128>, group: Option<u128>) -> Option<Listing> {
    if all {
        Some(Listing::All)
    } else if device is Some {
        Some(Listing::ByDevice(device->0))
    } else if group is Some {
        Some(Listing::ByGroup(group->0))
    } else {
        None
    }
}

/// Chooses among the listing selectors, first match in the order `--all`,
/// `--device`, `--group`.
pub fn select_listing(all: bool, device: Option<u128>, group: Option<u128>) -> (r: Result<Listing, Error>)
    ensures
        match chosen_listing(all, device, group) {
            Some(l) => r == Ok::<Listing, Error>(l),
            None => r matches Err(e) && e.is_args(no_listing_message()),
        },
{
    if all {
        Ok(Listing::All)
    } else if let Some(d) = device {
        Ok(Listing::ByDevice(d))
    } else if let Some(g) = group {
        Ok(Listing::ByGroup(g))
    } else {
        Err(Error::Args("one of --all, --device, or --group required".to_owned()))
    }
}

/// A registry query.
#[derive(PartialEq, Eq, Structural, Clone, Copy, Debug)]
pub enum RegistryCall {
    /// Every device.
    ListAllDevices,
    /// The details of one device.
    ListDevice(u128),
    /// The devices of one group.
    ListDevicesInGroup(u128),
    /// Every group.
    ListAllGroups,
    /// The groups one device belongs to.
    ListGroupsOfDevice(u128),
}

/// The query a device listing makes.
pub open spec fn device_query(l: Listing) -> RegistryCall {
    match l {
        Listing::All => RegistryCall::ListAllDevices,
        Listing::ByDevice(d) => RegistryCall::ListDevice(d),
        Listing::ByGroup(g) => RegistryCall::ListDevicesInGroup(g),
    }
}

/// The query a group listing makes.
pub open spec fn group_query(l: Listing) -> RegistryCall {
    match l {
        Listing::All => RegistryCall::ListAllGroups,
        Listing::ByDevice(d) => RegistryCall::ListGroupsOfDevice(d),
        Listing::ByGroup(g) => RegistryCall::ListDevicesInGroup(g),
    }
}

/// `r` is what a listing gives: the arguments are read, then a selector is
/// chosen and turned into a query by `query`.
pub open spec fn lists(
    all: bool,
    device: Option<Seq<char>>,
    group: Option<Seq<char>>,
    query: spec_fn(Listing) -> RegistryCall,
    r: Result<RegistryCall, Error>,
) -> bool {
    match (read_id(device), read_id(group)) {
        (Some(d), Some(g)) => match chosen_listing(all, d, g) {
            Some(l) => r == Ok::<RegistryCall, Error>(query(l)),
            None => r matches Err(e) && e.is_args(no_listing_message()),
        },
        _ => r matches Err(e) && e is Uuid,
    }
}

/// The device registry.
pub struct Registry;

impl Registry {
    /// The query for a device listing with these arguments.
    pub fn list_device_args(all: bool, device: Option<&str>, group: Option<&str>) -> (r: Result<
        RegistryCall,
        Error,
    >)
        ensures
            lists(all, opt_text(device), opt_text(group), |l: Listing| device_query(l), r),
    {
        let (a, d, g) = match parse_list_args(all, device, group) {
            Ok(t) => t,
            Err(e) => return Err(e),
        };
        match select_listing(a, d, g) {
            Ok(Listing::All) => Ok(RegistryCall::ListAllDevices),
            Ok(Listing::ByDevice(d)) => Ok(RegistryCall::ListDevice(d)),
            Ok(Listing::ByGroup(g)) => Ok(RegistryCall::ListDevicesInGroup(g)),
            Err(e) => Err(e),
        }
    }

    /// The query for a group listing with these arguments.
    pub fn list_group_args(all: bool, device: Option<&str>, group: Option<&str>) -> (r: Result<
        RegistryCall,
        Error,
    >)
        ensures
            lists(all, opt_text(device), opt_text(group), |l: Listing| group_query(l), r),
    {
        let (a, d, g) = match parse_list_args(all, device, group) {
            Ok(t) => t,
            Err(e) => return Err(e),
        };
        match select_listing(a, d, g) {
            Ok(Listing::All) => Ok(RegistryCall::ListAllGroups),
            Ok(Listing::ByDevice(d)) => Ok(RegistryCall::ListGroupsOfDevice(d)),
            Ok(Listing::ByGroup(g)) => Ok(RegistryCall::ListDevicesInGroup(g)),
            Err(e) => Err(e),
        }
    }
}

} // verus!

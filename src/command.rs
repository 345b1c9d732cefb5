//! The command grammar: a top-level command word, then a sub-command word
//! from the closed vocabulary of that command. Words are read ignoring case.

use vstd::prelude::*;

use crate::error::Error;
use crate::text::{concat, lower_of, lowercase, opt_text, same_text};

verus! {

/// Available CLI commands.
#[derive(PartialEq, Eq, Structural, Clone, Copy, Debug)]
pub enum Command {
    Init,
    Campaign,
    Device,
    Group,
    Package,
    Update,
}

impl Command {
    /// The value that the lower-case word `w` names, if any.
    pub open spec fn named(w: Seq<char>) -> Option<Command> {
        if w == "init"@ {
            Some(Command::Init)
        } else if w == "campaign"@ {
            Some(Command::Campaign)
        } else if w == "device"@ {
            Some(Command::Device)
        } else if w == "group"@ {
            Some(Command::Group)
        } else if w == "package"@ {
            Some(Command::Package)
        } else if w == "update"@ {
            Some(Command::Update)
        } else {
            None
        }
    }

    /// The words that name a value, one for each.
    pub open spec fn words() -> Seq<Seq<char>> {
        seq!["init"@, "campaign"@, "device"@, "group"@, "package"@, "update"@]
    }

    /// The message of the error for the unknown word `s`.
    pub open spec fn unknown_message(s: Seq<char>) -> Seq<char> {
        "unknown command: "@ + s
    }

    /// `r` is what reading the word `s` gives, once lowered to `w`.
    pub open spec fn reads_as(w: Seq<char>, s: Seq<char>, r: Result<Command, Error>) -> bool {
        match Command::named(w) {
            Some(v) => r == Ok::<Command, Error>(v),
            None => r matches Err(e) && e.is_command(Command::unknown_message(s)),
        }
    }

    /// Reads `w`, the lower-case form of the word `s` as given.
    pub fn from_lowercase(w: &str, s: &str) -> (r: Result<Command, Error>)
        ensures
            Command::reads_as(w@, s@, r),
    {
        if same_text(w, "init") {
            Ok(Command::Init)
        } else if same_text(w, "campaign") {
            Ok(Command::Campaign)
        } else if same_text(w, "device") {
            Ok(Command::Device)
        } else if same_text(w, "group") {
            Ok(Command::Group)
        } else if same_text(w, "package") {
            Ok(Command::Package)
        } else if same_text(w, "update") {
            Ok(Command::Update)
        } else {
            Err(Error::Command(concat("unknown command: ", s)))
        }
    }

    /// Reads the word `s`, ignoring case.
    pub fn parse(s: &str) -> (r: Result<Command, Error>)
        ensures
            Command::reads_as(lower_of(s@), s@, r),
    {
        let w = lowercase(s);
        Command::from_lowercase(w.as_str(), s)
    }

    /// Exactly the listed words name a value.
    pub proof fn closed_vocabulary(w: Seq<char>)
        ensures
            Command::named(w) is Some <==> Command::words().contains(w),
    {
        if Command::named(w) is Some {
            if w == "init"@ {
                assert(Command::words()[0] == w);
            }
            if w == "campaign"@ {
                assert(Command::words()[1] == w);
            }
            if w == "device"@ {
                assert(Command::words()[2] == w);
            }
            if w == "group"@ {
                assert(Command::words()[3] == w);
            }
            if w == "package"@ {
                assert(Command::words()[4] == w);
            }
            if w == "update"@ {
                assert(Command::words()[5] == w);
            }
        }
    }
}

impl std::str::FromStr for Command {
    type Err = Error;

    fn from_str(s: &str) -> Result<Command, Error> {
        Command::parse(s)
    }
}
/// Available campaign sub-commands.
#[derive(PartialEq, Eq, Structural, Clone, Copy, Debug)]
pub enum Campaign {
    List,
    Create,
    Launch,
    Cancel,
    ListUpdates,
    CreateUpdate,
}

impl Campaign {
    /// The value that the lower-case word `w` names, if any.
    pub open spec fn named(w: Seq<char>) -> Option<Campaign> {
        if w == "list"@ {
            Some(Campaign::List)
        } else if w == "create"@ {
            Some(Campaign::Create)
        } else if w == "launch"@ {
            Some(Campaign::Launch)
        } else if w == "cancel"@ {
            Some(Campaign::Cancel)
        } else if w == "listupdates"@ {
            Some(Campaign::ListUpdates)
        } else if w == "createupdate"@ {
            Some(Campaign::CreateUpdate)
        } else {
            None
        }
    }

    /// The words that name a value, one for each.
    pub open spec fn words() -> Seq<Seq<char>> {
        seq!["list"@, "create"@, "launch"@, "cancel"@, "listupdates"@, "createupdate"@]
    }

    /// The message of the error for the unknown word `s`.
    pub open spec fn unknown_message(s: Seq<char>) -> Seq<char> {
        "unknown campaign subcommand: "@ + s
    }

    /// `r` is what reading the word `s` gives, once lowered to `w`.
    pub open spec fn reads_as(w: Seq<char>, s: Seq<char>, r: Result<Campaign, Error>) -> bool {
        match Campaign::named(w) {
            Some(v) => r == Ok::<Campaign, Error>(v),
            None => r matches Err(e) && e.is_command(Campaign::unknown_message(s)),
        }
    }

    /// Reads `w`, the lower-case form of the word `s` as given.
    pub fn from_lowercase(w: &str, s: &str) -> (r: Result<Campaign, Error>)
        ensures
            Campaign::reads_as(w@, s@, r),
    {
        if same_text(w, "list") {
            Ok(Campaign::List)
        } else if same_text(w, "create") {
            Ok(Campaign::Create)
        } else if same_text(w, "launch") {
            Ok(Campaign::Launch)
        } else if same_text(w, "cancel") {
            Ok(Campaign::Cancel)
        } else if same_text(w, "listupdates") {
            Ok(Campaign::ListUpdates)
        } else if same_text(w, "createupdate") {
            Ok(Campaign::CreateUpdate)
        } else {
            Err(Error::Command(concat("unknown campaign subcommand: ", s)))
        }
    }

    /// Reads the word `s`, ignoring case.
    pub fn parse(s: &str) -> (r: Result<Campaign, Error>)
        ensures
            Campaign::reads_as(lower_of(s@), s@, r),
    {
        let w = lowercase(s);
        Campaign::from_lowercase(w.as_str(), s)
    }

    /// Exactly the listed words name a value.
    pub proof fn closed_vocabulary(w: Seq<char>)
        ensures
            Campaign::named(w) is Some <==> Campaign::words().contains(w),
    {
        if Campaign::named(w) is Some {
            if w == "list"@ {
                assert(Campaign::words()[0] == w);
            }
            if w == "create"@ {
                assert(Campaign::words()[1] == w);
            }
            if w == "launch"@ {
                assert(Campaign::words()[2] == w);
            }
            if w == "cancel"@ {
                assert(Campaign::words()[3] == w);
            }
            if w == "listupdates"@ {
                assert(Campaign::words()[4] == w);
            }
            if w == "createupdate"@ {
                assert(Campaign::words()[5] == w);
            }
        }
    }
}

impl std::str::FromStr for Campaign {
    type Err = Error;

    fn from_str(s: &str) -> Result<Campaign, Error> {
        Campaign::parse(s)
    }
}
/// Available device sub-commands.
#[derive(PartialEq, Eq, Structural, Clone, Copy, Debug)]
pub enum Device {
    List,
    Create,
    Delete,
}

impl Device {
    /// The value that the lower-case word `w` names, if any.
    pub open spec fn named(w: Seq<char>) -> Option<Device> {
        if w == "list"@ {
            Some(Device::List)
        } else if w == "create"@ {
            Some(Device::Create)
        } else if w == "delete"@ {
            Some(Device::Delete)
        } else {
            None
        }
    }

    /// The words that name a value, one for each.
    pub open spec fn words() -> Seq<Seq<char>> {
        seq!["list"@, "create"@, "delete"@]
    }

    /// The message of the error for the unknown word `s`.
    pub open spec fn unknown_message(s: Seq<char>) -> Seq<char> {
        "unknown device subcommand: "@ + s
    }

    /// `r` is what reading the word `s` gives, once lowered to `w`.
    pub open spec fn reads_as(w: Seq<char>, s: Seq<char>, r: Result<Device, Error>) -> bool {
        match Device::named(w) {
            Some(v) => r == Ok::<Device, Error>(v),
            None => r matches Err(e) && e.is_command(Device::unknown_message(s)),
        }
    }

    /// Reads `w`, the lower-case form of the word `s` as given.
    pub fn from_lowercase(w: &str, s: &str) -> (r: Result<Device, Error>)
        ensures
            Device::reads_as(w@, s@, r),
    {
        if same_text(w, "list") {
            Ok(Device::List)
        } else if same_text(w, "create") {
            Ok(Device::Create)
        } else if same_text(w, "delete") {
            Ok(Device::Delete)
        } else {
            Err(Error::Command(concat("unknown device subcommand: ", s)))
        }
    }

    /// Reads the word `s`, ignoring case.
    pub fn parse(s: &str) -> (r: Result<Device, Error>)
        ensures
            Device::reads_as(lower_of(s@), s@, r),
    {
        let w = lowercase(s);
        Device::from_lowercase(w.as_str(), s)
    }

    /// Exactly the listed words name a value.
    pub proof fn closed_vocabulary(w: Seq<char>)
        ensures
            Device::named(w) is Some <==> Device::words().contains(w),
    {
        if Device::named(w) is Some {
            if w == "list"@ {
                assert(Device::words()[0] == w);
            }
            if w == "create"@ {
                assert(Device::words()[1] == w);
            }
            if w == "delete"@ {
                assert(Device::words()[2] == w);
            }
        }
    }
}

impl std::str::FromStr for Device {
    type Err = Error;

    fn from_str(s: &str) -> Result<Device, Error> {
        Device::parse(s)
    }
}
/// Available group sub-commands.
#[derive(PartialEq, Eq, Structural, Clone, Copy, Debug)]
pub enum Group {
    List,
    Create,
    Add,
    Rename,
    Remove,
}

impl Group {
    /// The value that the lower-case word `w` names, if any.
    pub open spec fn named(w: Seq<char>) -> Option<Group> {
        if w == "list"@ {
            Some(Group::List)
        } else if w == "create"@ {
            Some(Group::Create)
        } else if w == "add"@ {
            Some(Group::Add)
        } else if w == "rename"@ {
            Some(Group::Rename)
        } else if w == "remove"@ {
            Some(Group::Remove)
        } else {
            None
        }
    }

    /// The words that name a value, one for each.
    pub open spec fn words() -> Seq<Seq<char>> {
        seq!["list"@, "create"@, "add"@, "rename"@, "remove"@]
    }

    /// The message of the error for the unknown word `s`.
    pub open spec fn unknown_message(s: Seq<char>) -> Seq<char> {
        "unknown group subcommand: "@ + s
    }

    /// `r` is what reading the word `s` gives, once lowered to `w`.
    pub open spec fn reads_as(w: Seq<char>, s: Seq<char>, r: Result<Group, Error>) -> bool {
        match Group::named(w) {
            Some(v) => r == Ok::<Group, Error>(v),
            None => r matches Err(e) && e.is_command(Group::unknown_message(s)),
        }
    }

    /// Reads `w`, the lower-case form of the word `s` as given.
    pub fn from_lowercase(w: &str, s: &str) -> (r: Result<Group, Error>)
        ensures
            Group::reads_as(w@, s@, r),
    {
        if same_text(w, "list") {
            Ok(Group::List)
        } else if same_text(w, "create") {
            Ok(Group::Create)
        } else if same_text(w, "add") {
            Ok(Group::Add)
        } else if same_text(w, "rename") {
            Ok(Group::Rename)
        } else if same_text(w, "remove") {
            Ok(Group::Remove)
        } else {
            Err(Error::Command(concat("unknown group subcommand: ", s)))
        }
    }

    /// Reads the word `s`, ignoring case.
    pub fn parse(s: &str) -> (r: Result<Group, Error>)
        ensures
            Group::reads_as(lower_of(s@), s@, r),
    {
        let w = lowercase(s);
        Group::from_lowercase(w.as_str(), s)
    }

    /// Exactly the listed words name a value.
    pub proof fn closed_vocabulary(w: Seq<char>)
        ensures
            Group::named(w) is Some <==> Group::words().contains(w),
    {
        if Group::named(w) is Some {
            if w == "list"@ {
                assert(Group::words()[0] == w);
            }
            if w == "create"@ {
                assert(Group::words()[1] == w);
            }
            if w == "add"@ {
                assert(Group::words()[2] == w);
            }
            if w == "rename"@ {
                assert(Group::words()[3] == w);
            }
            if w == "remove"@ {
                assert(Group::words()[4] == w);
            }
        }
    }
}

impl std::str::FromStr for Group {
    type Err = Error;

    fn from_str(s: &str) -> Result<Group, Error> {
        Group::parse(s)
    }
}
/// Available package sub-commands.
#[derive(PartialEq, Eq, Structural, Clone, Copy, Debug)]
pub enum Package {
    List,
    Add,
    Fetch,
    Upload,
}

impl Package {
    /// The value that the lower-case word `w` names, if any.
    pub open spec fn named(w: Seq<char>) -> Option<Package> {
        if w == "list"@ {
            Some(Package::List)
        } else if w == "add"@ {
            Some(Package::Add)
        } else if w == "fetch"@ {
            Some(Package::Fetch)
        } else if w == "upload"@ {
            Some(Package::Upload)
        } else {
            None
        }
    }

    /// The words that name a value, one for each.
    pub open spec fn words() -> Seq<Seq<char>> {
        seq!["list"@, "add"@, "fetch"@, "upload"@]
    }

    /// The message of the error for the unknown word `s`.
    pub open spec fn unknown_message(s: Seq<char>) -> Seq<char> {
        "unknown package subcommand: "@ + s
    }

    /// `r` is what reading the word `s` gives, once lowered to `w`.
    pub open spec fn reads_as(w: Seq<char>, s: Seq<char>, r: Result<Package, Error>) -> bool {
        match Package::named(w) {
            Some(v) => r == Ok::<Package, Error>(v),
            None => r matches Err(e) && e.is_command(Package::unknown_message(s)),
        }
    }

    /// Reads `w`, the lower-case form of the word `s` as given.
    pub fn from_lowercase(w: &str, s: &str) -> (r: Result<Package, Error>)
        ensures
            Package::reads_as(w@, s@, r),
    {
        if same_text(w, "list") {
            Ok(Package::List)
        } else if same_text(w, "add") {
            Ok(Package::Add)
        } else if same_text(w, "fetch") {
            Ok(Package::Fetch)
        } else if same_text(w, "upload") {
            Ok(Package::Upload)
        } else {
            Err(Error::Command(concat("unknown package subcommand: ", s)))
        }
    }

    /// Reads the word `s`, ignoring case.
    pub fn parse(s: &str) -> (r: Result<Package, Error>)
        ensures
            Package::reads_as(lower_of(s@), s@, r),
    {
        let w = lowercase(s);
        Package::from_lowercase(w.as_str(), s)
    }

    /// Exactly the listed words name a value.
    pub proof fn closed_vocabulary(w: Seq<char>)
        ensures
            Package::named(w) is Some <==> Package::words().contains(w),
    {
        if Package::named(w) is Some {
            if w == "list"@ {
                assert(Package::words()[0] == w);
            }
            if w == "add"@ {
                assert(Package::words()[1] == w);
            }
            if w == "fetch"@ {
                assert(Package::words()[2] == w);
            }
            if w == "upload"@ {
                assert(Package::words()[3] == w);
            }
        }
    }
}

impl std::str::FromStr for Package {
    type Err = Error;

    fn from_str(s: &str) -> Result<Package, Error> {
        Package::parse(s)
    }
}
/// Available update sub-commands.
#[derive(PartialEq, Eq, Structural, Clone, Copy, Debug)]
pub enum Update {
    Create,
    Launch,
}

impl Update {
    /// The value that the lower-case word `w` names, if any.
    pub open spec fn named(w: Seq<char>) -> Option<Update> {
        if w == "create"@ {
            Some(Update::Create)
        } else if w == "launch"@ {
            Some(Update::Launch)
        } else {
            None
        }
    }

    /// The words that name a value, one for each.
    pub open spec fn words() -> Seq<Seq<char>> {
        seq!["create"@, "launch"@]
    }

    /// The message of the error for the unknown word `s`.
    pub open spec fn unknown_message(s: Seq<char>) -> Seq<char> {
        "unknown update subcommand: "@ + s
    }

    /// `r` is what reading the word `s` gives, once lowered to `w`.
    pub open spec fn reads_as(w: Seq<char>, s: Seq<char>, r: Result<Update, Error>) -> bool {
        match Update::named(w) {
            Some(v) => r == Ok::<Update, Error>(v),
            None => r matches Err(e) && e.is_command(Update::unknown_message(s)),
        }
    }

    /// Reads `w`, the lower-case form of the word `s` as given.
    pub fn from_lowercase(w: &str, s: &str) -> (r: Result<Update, Error>)
        ensures
            Update::reads_as(w@, s@, r),
    {
        if same_text(w, "create") {
            Ok(Update::Create)
        } else if same_text(w, "launch") {
            Ok(Update::Launch)
        } else {
            Err(Error::Command(concat("unknown update subcommand: ", s)))
        }
    }

    /// Reads the word `s`, ignoring case.
    pub fn parse(s: &str) -> (r: Result<Update, Error>)
        ensures
            Update::reads_as(lower_of(s@), s@, r),
    {
        let w = lowercase(s);
        Update::from_lowercase(w.as_str(), s)
    }

    /// Exactly the listed words name a value.
    pub proof fn closed_vocabulary(w: Seq<char>)
        ensures
            Update::named(w) is Some <==> Update::words().contains(w),
    {
        if Update::named(w) is Some {
            if w == "create"@ {
                assert(Update::words()[0] == w);
            }
            if w == "launch"@ {
                assert(Update::words()[1] == w);
            }
        }
    }
}

impl std::str::FromStr for Update {
    type Err = Error;

    fn from_str(s: &str) -> Result<Update, Error> {
        Update::parse(s)
    }
}
/// A command with its sub-command: the operation to run.
#[derive(PartialEq, Eq, Structural, Clone, Copy, Debug)]
pub enum Route {
    Init,
    Campaign(Campaign),
    Device(Device),
    Group(Group),
    Package(Package),
    Update(Update),
}

/// The message of the error for a command given without its sub-command.
pub open spec fn missing_subcommand_message() -> Seq<char> {
    "sub-command required"@
}

impl Command {
    /// `r` is the operation that this command selects with the sub-command
    /// word `sub`: `init` takes none, every other command needs one from its
    /// own vocabulary.
    pub open spec fn routes(self, sub: Option<Seq<char>>, r: Result<Route, Error>) -> bool {
        if self == Command::Init {
            r == Ok::<Route, Error>(Route::Init)
        } else {
            match sub {
                None => r matches Err(e) && e.is_args(missing_subcommand_message()),
                Some(s) => {
                    let w = lower_of(s);
                    match self {
                        Command::Campaign => match Campaign::named(w) {
                            Some(v) => r == Ok::<Route, Error>(Route::Campaign(v)),
                            None => r matches Err(e) && e.is_command(Campaign::unknown_message(s)),
                        },
                        Command::Device => match Device::named(w) {
                            Some(v) => r == Ok::<Route, Error>(Route::Device(v)),
                            None => r matches Err(e) && e.is_command(Device::unknown_message(s)),
                        },
                        Command::Group => match Group::named(w) {
                            Some(v) => r == Ok::<Route, Error>(Route::Group(v)),
                            None => r matches Err(e) && e.is_command(Group::unknown_message(s)),
                        },
                        Command::Package => match Package::named(w) {
                            Some(v) => r == Ok::<Route, Error>(Route::Package(v)),
                            None => r matches Err(e) && e.is_command(Package::unknown_message(s)),
                        },
                        _ => match Update::named(w) {
                            Some(v) => r == Ok::<Route, Error>(Route::Update(v)),
                            None => r matches Err(e) && e.is_command(Update::unknown_message(s)),
                        },
                    }
                },
            }
        }
    }

    /// Selects the operation named by this command and the sub-command word `sub`.
    pub fn route(self, sub: Option<&str>) -> (r: Result<Route, Error>)
        ensures
            self.routes(opt_text(sub), r),
    {
        if let Command::Init = self {
            return Ok(Route::Init);
        }
        let s = match sub {
            Some(s) => s,
            None => return Err(Error::Args("sub-command required".to_owned())),
        };
        match self {
            Command::Campaign => match Campaign::parse(s) {
                Ok(v) => Ok(Route::Campaign(v)),
                Err(e) => Err(e),
            },
            Command::Device => match Device::parse(s) {
                Ok(v) => Ok(Route::Device(v)),
                Err(e) => Err(e),
            },
            Command::Group => match Group::parse(s) {
                Ok(v) => Ok(Route::Group(v)),
                Err(e) => Err(e),
            },
            Command::Package => match Package::parse(s) {
                Ok(v) => Ok(Route::Package(v)),
                Err(e) => Err(e),
            },
            Command::Update => match Update::parse(s) {
                Ok(v) => Ok(Route::Update(v)),
                Err(e) => Err(e),
            },
            Command::Init => Ok(Route::Init),
        }
    }
}

/// Reading a word depends only on its lower-case form: two words that lower
/// to the same characters select the same command and the same sub-commands.
pub proof fn words_ignore_case(a: Seq<char>, b: Seq<char>)
    requires
        lower_of(a) == lower_of(b),
    ensures
        Command::named(lower_of(a)) == Command::named(lower_of(b)),
        Campaign::named(lower_of(a)) == Campaign::named(lower_of(b)),
        Device::named(lower_of(a)) == Device::named(lower_of(b)),
        Group::named(lower_of(a)) == Group::named(lower_of(b)),
        Package::named(lower_of(a)) == Package::named(lower_of(b)),
        Update::named(lower_of(a)) == Update::named(lower_of(b)),
{
}

} // verus!

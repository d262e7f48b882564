use vstd::prelude::*;

verus! {

/// Where Xcode 16 and later keep provisioning profiles.
pub const XC_16_DIR: &'static str = "~/Library/Developer/Xcode/UserData/Provisioning Profiles";

/// Where Xcode 15 and earlier keep provisioning profiles.
pub const XC_15_DIR: &'static str = "~/Library/MobileDevice/Provisioning Profiles";

/// The command line: what to list, and where to look.
#[derive(Debug)]
pub struct MyCliArgs {
    pub command: Commands,
    /// Lookup directories that replace the default ones; empty for the defaults.
    pub custom_dir: Vec<String>,
    /// How often the verbosity flag was given.
    pub verbose: u8,
}

/// The two listings.
#[derive(Debug)]
pub enum Commands {
    /// A compact table with one profile per line.
    List(ListCompactArgs),
    /// An extended table with several lines per profile.
    ListExtended(ListExtendedArgs),
}

/// Options of the compact listing.
#[derive(Clone, Copy, Debug, PartialEq, Eq, Structural)]
pub struct ListCompactArgs {
    pub sort_by: CompactSortBy,
    pub sort_order: SortOrder,
    /// Wrap long text onto more lines instead of truncating it.
    pub allow_wrap: bool,
}

/// Options of the extended listing: there are none.
#[derive(Clone, Copy, Debug, PartialEq, Eq, Structural)]
pub struct ListExtendedArgs {}

/// The column that the compact listing is sorted by.
#[derive(Clone, Copy, Debug, PartialEq, Eq, Structural)]
pub enum CompactSortBy {
    Name,
    AppIdName,
    ExpirationDate,
}

#[derive(Clone, Copy, Debug, PartialEq, Eq, Structural)]
pub enum SortOrder {
    Asc,
    Desc,
}

/// Which lookup directory a profile was found in.
#[derive(Clone, Copy, Debug, PartialEq, Eq, Structural)]
pub enum XcProvisioningProfileDirKind {
    /// The directory of Xcode 15 and earlier.
    Xc15,
    /// The directory of Xcode 16 and later.
    Xc16,
    /// A directory given on the command line.
    Custom,
}

impl XcProvisioningProfileDirKind {
    pub open spec fn label_spec(self) -> Seq<char> {
        match self {
            XcProvisioningProfileDirKind::Xc15 => "Xc15"@,
            XcProvisioningProfileDirKind::Xc16 => "Xc16"@,
            XcProvisioningProfileDirKind::Custom => "Custom"@,
        }
    }

    /// The name under which the directory kind is shown.
    pub fn label(&self) -> (r: String)
        ensures
            r@ == self.label_spec(),
    {
        match self {
            XcProvisioningProfileDirKind::Xc15 => "Xc15".to_owned(),
            XcProvisioningProfileDirKind::Xc16 => "Xc16".to_owned(),
            XcProvisioningProfileDirKind::Custom => "Custom".to_owned(),
        }
    }
}

/// A lookup directory as written, possibly starting with `~`, and its kind.
#[derive(Debug)]
pub struct XcProvisioningProfileDir {
    pub relative_path: String,
    pub kind: XcProvisioningProfileDirKind,
}

/// Relies on `shellexpand::tilde`: a leading `~` alone or followed by `/` becomes the
/// home directory, where one is known; any other text comes back unchanged.
#[verifier::external_body]
fn expand_tilde(s: &str) -> (r: String)
    ensures
        s@.len() == 0 || s@[0] != '~' ==> r@ == s@,
        s@.len() > 0 && s@[0] == '~' ==> r@.len() >= s@.len() - 1 && r@.subrange(
            r@.len() - (s@.len() - 1),
            r@.len() as int,
        ) == s@.subrange(1, s@.len() as int),
{
    shellexpand::tilde(s).into_owned()
}

impl XcProvisioningProfileDir {
    /// The directory with a leading `~` replaced by the home directory.
    pub fn absolute_path(&self) -> (r: String)
        ensures
            self.relative_path@.len() == 0 || self.relative_path@[0] != '~' ==> r@
                == self.relative_path@,
    {
        expand_tilde(self.relative_path.as_str())
    }
}

impl MyCliArgs {
    /// The directories to look in: those given on the command line, in their order,
    /// or else the two default directories, the newer one first.
    pub fn actual_dirs(&self) -> (r: Vec<XcProvisioningProfileDir>)
        ensures
            self.custom_dir@.len() == 0 ==> r@.len() == 2 && r@[0].relative_path@ == XC_16_DIR@
                && r@[0].kind == XcProvisioningProfileDirKind::Xc16 && r@[1].relative_path@
                == XC_15_DIR@ && r@[1].kind == XcProvisioningProfileDirKind::Xc15,
            self.custom_dir@.len() > 0 ==> r@.len() == self.custom_dir@.len() && forall|i: int|
                0 <= i < r@.len() ==> (#[trigger] r@[i]).relative_path@ == self.custom_dir@[i]@
                    && r@[i].kind == XcProvisioningProfileDirKind::Custom,
    {
        let mut dirs: Vec<XcProvisioningProfileDir> = Vec::new();
        if self.custom_dir.len() == 0 {
            dirs.push(
                XcProvisioningProfileDir {
                    relative_path: XC_16_DIR.to_owned(),
                    kind: XcProvisioningProfileDirKind::Xc16,
                },
            );
            dirs.push(
                XcProvisioningProfileDir {
                    relative_path: XC_15_DIR.to_owned(),
                    kind: XcProvisioningProfileDirKind::Xc15,
                },
            );
            return dirs;
        }
        let mut i: usize = 0;
        while i < self.custom_dir.len()
            invariant
                i <= self.custom_dir@.len(),
                dirs@.len() == i,
                forall|j: int|
                    0 <= j < i ==> (#[trigger] dirs@[j]).relative_path@ == self.custom_dir@[j]@
                        && dirs@[j].kind == XcProvisioningProfileDirKind::Custom,
            decreases self.custom_dir@.len() - i,
        {
            dirs.push(
                XcProvisioningProfileDir {
                    relative_path: self.custom_dir[i].clone(),
                    kind: XcProvisioningProfileDirKind::Custom,
                },
            );
            i += 1;
        }
        dirs
    }
}

} // verus!

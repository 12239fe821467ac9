use vstd::prelude::*;

verus! {

/// The operating system a build targets, as far as the platform flags of
/// [`CurrentPlatform`] tell them apart.
#[derive(PartialEq, Eq, Structural, Debug, Clone, Copy)]
pub enum TargetOs {
    Android,
    Ios,
    MacOs,
    Linux,
    Windows,
    /// Any other target (the BSDs, the web, ...).
    Other,
}

/// Flags describing the platform the app runs on.
#[derive(PartialEq, Eq, Structural, Debug, Clone, Copy)]
pub struct CurrentPlatform {
    pub is_android: bool,
    pub is_ios: bool,
    pub is_mobile: bool,
    pub is_macos: bool,
    pub is_linux: bool,
    pub is_windows: bool,
    pub is_desktop: bool,
}

impl CurrentPlatform {
    /// The flags of a platform: each OS flag is set for its own OS only; mobile
    /// means Android or iOS, and desktop is everything that is not mobile.
    pub open spec fn spec_new(os: TargetOs) -> CurrentPlatform {
        let is_android = os == TargetOs::Android;
        let is_ios = os == TargetOs::Ios;
        CurrentPlatform {
            is_android,
            is_ios,
            is_mobile: is_android || is_ios,
            is_macos: os == TargetOs::MacOs,
            is_linux: os == TargetOs::Linux,
            is_windows: os == TargetOs::Windows,
            is_desktop: !(is_android || is_ios),
        }
    }

    /// The platform flags for the target OS `os` (the caller passes the OS the
    /// build was compiled for).
    pub fn new(os: TargetOs) -> (p: CurrentPlatform)
        ensures
            p == Self::spec_new(os),
            p.is_android <==> os == TargetOs::Android,
            p.is_ios <==> os == TargetOs::Ios,
            p.is_macos <==> os == TargetOs::MacOs,
            p.is_linux <==> os == TargetOs::Linux,
            p.is_windows <==> os == TargetOs::Windows,
            p.is_mobile <==> (os == TargetOs::Android || os == TargetOs::Ios),
            p.is_desktop <==> !p.is_mobile,
    {
        let is_android = match os {
            TargetOs::Android => true,
            _ => false,
        };
        let is_ios = match os {
            TargetOs::Ios => true,
            _ => false,
        };
        let is_mobile = is_android || is_ios;
        CurrentPlatform {
            is_android,
            is_ios,
            is_mobile,
            is_macos: match os {
                TargetOs::MacOs => true,
                _ => false,
            },
            is_linux: match os {
                TargetOs::Linux => true,
                _ => false,
            },
            is_windows: match os {
                TargetOs::Windows => true,
                _ => false,
            },
            is_desktop: !is_mobile,
        }
    }
}

/// At most one OS flag is set, each flag is set for its own OS only, and a
/// platform is either mobile or desktop: mobile exactly on Android and iOS.
pub proof fn lemma_platform_flags(os: TargetOs)
    ensures
        ({
            let p = CurrentPlatform::spec_new(os);
            let n = (if p.is_android { 1int } else { 0 }) + (if p.is_ios { 1int } else { 0 }) + (
            if p.is_macos {
                1int
            } else {
                0
            }) + (if p.is_linux { 1int } else { 0 }) + (if p.is_windows { 1int } else { 0 });
            &&& n <= 1
            &&& (n == 0 <==> os == TargetOs::Other)
            &&& p.is_android <==> os == TargetOs::Android
            &&& p.is_ios <==> os == TargetOs::Ios
            &&& p.is_macos <==> os == TargetOs::MacOs
            &&& p.is_linux <==> os == TargetOs::Linux
            &&& p.is_windows <==> os == TargetOs::Windows
            &&& p.is_mobile <==> (p.is_android || p.is_ios)
            &&& p.is_desktop != p.is_mobile
        }),
{
}

} // verus!

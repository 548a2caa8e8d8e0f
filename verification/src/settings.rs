use vstd::prelude::*;

use crate::version::{Version, VersionView};

verus! {

/// Optional capabilities of the machine that runs the generated program.
#[derive(Debug, Clone, Copy, PartialEq, Eq, Structural)]
pub struct SupportedFunctionality {
    /// Whether the machine understands circular interpolation (G2/G3).
    pub circular_interpolation: bool,
}

impl Default for SupportedFunctionality {
    fn default() -> (s: Self)
        ensures
            !s.circular_interpolation,
    {
        SupportedFunctionality { circular_interpolation: false }
    }
}

/// Machine-level configuration: its capabilities and the G-Code snippets that
/// are emitted around tool changes and around the whole program.
#[derive(Debug, Clone, PartialEq)]
pub struct MachineConfig {
    pub supported_functionality: SupportedFunctionality,
    pub tool_on_sequence: Option<String>,
    pub tool_off_sequence: Option<String>,
    pub begin_sequence: Option<String>,
    pub end_sequence: Option<String>,
}

/// The model of an optional snippet: its characters, if present.
pub open spec fn snippet_view(snippet: Option<String>) -> Option<Seq<char>> {
    match snippet {
        Some(s) => Some(s@),
        None => None,
    }
}

/// The mathematical model of a [`MachineConfig`].
pub struct MachineConfigView {
    pub supported_functionality: SupportedFunctionality,
    pub tool_on_sequence: Option<Seq<char>>,
    pub tool_off_sequence: Option<Seq<char>>,
    pub begin_sequence: Option<Seq<char>>,
    pub end_sequence: Option<Seq<char>>,
}

impl View for MachineConfig {
    type V = MachineConfigView;

    open spec fn view(&self) -> MachineConfigView {
        MachineConfigView {
            supported_functionality: self.supported_functionality,
            tool_on_sequence: snippet_view(self.tool_on_sequence),
            tool_off_sequence: snippet_view(self.tool_off_sequence),
            begin_sequence: snippet_view(self.begin_sequence),
            end_sequence: snippet_view(self.end_sequence),
        }
    }
}

impl Default for MachineConfig {
    fn default() -> (m: Self)
        ensures
            !m@.supported_functionality.circular_interpolation,
            m@.tool_on_sequence is None,
            m@.tool_off_sequence is None,
            m@.begin_sequence is None,
            m@.end_sequence is None,
    {
        MachineConfig {
            supported_functionality: SupportedFunctionality::default(),
            tool_on_sequence: None,
            tool_off_sequence: None,
            begin_sequence: None,
            end_sequence: None,
        }
    }
}

/// Formatting options applied after the program has been generated.
#[derive(Debug, Clone, Copy, PartialEq, Eq, Structural)]
pub struct PostprocessConfig {
    pub checksums: bool,
    pub line_numbers: bool,
    pub newline_before_comment: bool,
}

impl Default for PostprocessConfig {
    fn default() -> (p: Self)
        ensures
            !p.checksums,
            !p.line_numbers,
            !p.newline_before_comment,
    {
        PostprocessConfig { checksums: false, line_numbers: false, newline_before_comment: false }
    }
}

/// A cross-platform type used to store all configuration types.
///
/// The conversion parameters (tolerances, feedrates, resolutions) are carried
/// as the type parameter `C`: nothing in this crate reads them.
#[derive(Debug, Clone, PartialEq)]
pub struct Settings<C> {
    pub conversion: C,
    pub machine: MachineConfig,
    pub postprocess: PostprocessConfig,
    pub version: Version,
}

/// The mathematical model of [`Settings`].
pub struct SettingsView<C> {
    pub conversion: C,
    pub machine: MachineConfigView,
    pub postprocess: PostprocessConfig,
    pub version: VersionView,
}

impl<C> View for Settings<C> {
    type V = SettingsView<C>;

    open spec fn view(&self) -> SettingsView<C> {
        SettingsView {
            conversion: self.conversion,
            machine: self.machine@,
            postprocess: self.postprocess,
            version: self.version@,
        }
    }
}

/// The end sequence after the V0 to V5 upgrade: programs used to end with M2
/// implicitly, so M2 is appended to whatever end sequence was configured.
pub open spec fn end_sequence_with_m2(end_sequence: Option<Seq<char>>) -> Seq<char> {
    match end_sequence {
        Some(s) => s + " M2"@,
        None => " M2"@,
    }
}

/// What upgrading does to settings: `None` where the version is unknown and no
/// upgrade is possible, otherwise the settings at the most recent version.
pub open spec fn upgraded<C>(s: SettingsView<C>) -> Option<SettingsView<C>> {
    match s.version {
        VersionView::V0 => Some(
            SettingsView {
                machine: MachineConfigView {
                    end_sequence: Some(end_sequence_with_m2(s.machine.end_sequence)),
                    ..s.machine
                },
                version: VersionView::V5,
                ..s
            },
        ),
        VersionView::V5 => Some(s),
        VersionView::Unknown(_) => None,
    }
}

/// How many upgrade steps are still ahead of a version.
spec fn steps_left(v: VersionView) -> nat {
    match v {
        VersionView::V0 => 1,
        _ => 0,
    }
}

impl<C> Settings<C> {
    /// Try to automatically upgrade the supported version.
    ///
    /// This returns an error if the settings version is [`Version::Unknown`];
    /// the settings are then left as they were.
    pub fn try_upgrade(&mut self) -> (r: Result<(), &'static str>)
        ensures
            match upgraded(old(self)@) {
                Some(new) => r is Ok && final(self)@ == new,
                None => r matches Err(e) && e@ == "cannot upgrade unknown version"@
                    && final(self)@ == old(self)@,
            },
            r is Ok ==> final(self)@.version == VersionView::latest(),
    {
        loop
            invariant
                upgraded(self@) == upgraded(old(self)@),
                self@.version is Unknown ==> self@ == old(self)@,
            decreases steps_left(self@.version),
        {
            match self.version {
                Version::V0 => {
                    let previous = self.machine.end_sequence.take();
                    let mut end_sequence = match previous {
                        Some(s) => s,
                        None => String::new(),
                    };
                    end_sequence.append(" M2");
                    self.machine.end_sequence = Some(end_sequence);
                    self.version = Version::V5;
                },
                Version::V5 => {
                    return Ok(());
                },
                Version::Unknown(_) => {
                    return Err("cannot upgrade unknown version");
                },
            }
        }
    }
}

impl<C: Default> Default for Settings<C> {
    /// Default settings: default components at the most recent version.
    fn default() -> (s: Self)
        ensures
            call_ensures(C::default, (), s.conversion),
            s@.machine == MachineConfig::default_view(),
            s@.postprocess == (PostprocessConfig {
                checksums: false,
                line_numbers: false,
                newline_before_comment: false,
            }),
            s@.version == VersionView::latest(),
    {
        Settings {
            conversion: C::default(),
            machine: MachineConfig::default(),
            postprocess: PostprocessConfig::default(),
            version: Version::default(),
        }
    }
}

impl MachineConfig {
    /// The model of the default machine configuration.
    pub open spec fn default_view() -> MachineConfigView {
        MachineConfigView {
            supported_functionality: SupportedFunctionality { circular_interpolation: false },
            tool_on_sequence: None,
            tool_off_sequence: None,
            begin_sequence: None,
            end_sequence: None,
        }
    }
}

/// Upgrading is idempotent: settings that were upgraded once are already at the
/// most recent version, and upgrading them again succeeds and changes nothing.
pub proof fn lemma_upgrade_is_idempotent<C>(s: SettingsView<C>)
    requires
        upgraded(s) is Some,
    ensures
        upgraded(upgraded(s)->0) == upgraded(s),
{
}

/// Settings at the most recent version, such as default settings, need no
/// upgrade: upgrading them succeeds and leaves them as they are.
pub proof fn lemma_latest_needs_no_upgrade<C>(s: SettingsView<C>)
    requires
        s.version == VersionView::latest(),
    ensures
        upgraded(s) == Some(s),
{
}

/// An upgrade succeeds exactly when the version is known, and a successful
/// upgrade always ends at the most recent version.
pub proof fn lemma_upgrade_reaches_latest<C>(s: SettingsView<C>)
    ensures
        upgraded(s) is Some <==> !(s.version is Unknown),
        upgraded(s) matches Some(t) ==> t.version == VersionView::latest(),
{
}

/// An upgrade changes nothing but the version and the end sequence: the
/// conversion parameters, the post-processing options, the machine's
/// capabilities and its other snippets are kept.
pub proof fn lemma_upgrade_keeps_other_fields<C>(s: SettingsView<C>)
    requires
        upgraded(s) is Some,
    ensures
        ({
            let t = upgraded(s)->0;
            &&& t.conversion == s.conversion
            &&& t.postprocess == s.postprocess
            &&& t.machine.supported_functionality == s.machine.supported_functionality
            &&& t.machine.tool_on_sequence == s.machine.tool_on_sequence
            &&& t.machine.tool_off_sequence == s.machine.tool_off_sequence
            &&& t.machine.begin_sequence == s.machine.begin_sequence
        }),
{
}

/// Upgrading from V0 keeps the configured end sequence as a prefix of the new
/// one and appends M2 after a space; a missing end sequence becomes ` M2`.
pub proof fn lemma_upgrade_from_v0_appends_m2<C>(s: SettingsView<C>)
    requires
        s.version == VersionView::V0,
    ensures
        ({
            let end = upgraded(s)->0.machine.end_sequence->0;
            let before = match s.machine.end_sequence {
                Some(e) => e,
                None => Seq::<char>::empty(),
            };
            &&& end.len() == before.len() + 3
            &&& end.subrange(0, before.len() as int) == before
            &&& end.subrange(before.len() as int, end.len() as int) == " M2"@
        }),
{
    reveal_strlit(" M2");
    let before = match s.machine.end_sequence {
        Some(e) => e,
        None => Seq::<char>::empty(),
    };
    let end = upgraded(s)->0.machine.end_sequence->0;
    assert(end =~= before + " M2"@);
    assert(end.subrange(0, before.len() as int) =~= before);
    assert(end.subrange(before.len() as int, end.len() as int) =~= " M2"@);
}

} // verus!

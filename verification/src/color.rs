//! The display-element categories and their fixed palette assignment.

use vstd::prelude::*;

verus! {

/// A semantic display category of a listed filesystem entry. Each rendering
/// call picks exactly one of these tags; the registry assigns each tag one
/// indexed terminal color.
#[derive(Hash, Debug, Eq, PartialEq, Clone, Copy, Structural)]
pub enum Elem {
    /// Node type
    File,
    SymLink,
    BrokenSymLink,
    Dir,
    Pipe,
    BlockDevice,
    CharDevice,
    Socket,
    Special,

    /// Permissions
    Read,
    Write,
    Exec,
    ExecSticky,
    NoAccess,

    /// Last Time Modified
    DayOld,
    HourOld,
    Older,

    /// User / Group Name
    User,
    Group,

    /// File Size
    FileLarge,
    FileMedium,
    FileSmall,
}

/// The fixed element-to-palette-index table, as a total function: every
/// variant is bound to one index of the standard 256-color palette.
pub open spec fn color_index_of(e: Elem) -> u8 {
    match e {
        Elem::File => 184,
        Elem::SymLink => 44,
        Elem::BrokenSymLink => 124,
        Elem::Dir => 33,
        Elem::Pipe => 44,
        Elem::BlockDevice => 44,
        Elem::CharDevice => 44,
        Elem::Socket => 44,
        Elem::Special => 44,
        Elem::Read => 40,
        Elem::Write => 192,
        Elem::Exec => 124,
        Elem::ExecSticky => 13,
        Elem::NoAccess => 168,
        Elem::DayOld => 42,
        Elem::HourOld => 40,
        Elem::Older => 36,
        Elem::User => 230,
        Elem::Group => 187,
        Elem::FileLarge => 172,
        Elem::FileMedium => 216,
        Elem::FileSmall => 229,
    }
}

/// The position of each variant in the registry's backing table. Every
/// variant has its own slot, in the order the table is filled.
pub open spec fn slot_of(e: Elem) -> int {
    match e {
        Elem::User => 0,
        Elem::Group => 1,
        Elem::Read => 2,
        Elem::Write => 3,
        Elem::Exec => 4,
        Elem::ExecSticky => 5,
        Elem::NoAccess => 6,
        Elem::File => 7,
        Elem::Dir => 8,
        Elem::Pipe => 9,
        Elem::SymLink => 10,
        Elem::BrokenSymLink => 11,
        Elem::BlockDevice => 12,
        Elem::CharDevice => 13,
        Elem::Socket => 14,
        Elem::Special => 15,
        Elem::HourOld => 16,
        Elem::DayOld => 17,
        Elem::Older => 18,
        Elem::FileSmall => 19,
        Elem::FileMedium => 20,
        Elem::FileLarge => 21,
    }
}

/// How many slots the registry's backing table has: one per variant.
pub const SLOT_COUNT: usize = 22;

fn slot(e: &Elem) -> (r: usize)
    ensures
        r == slot_of(*e),
        r < SLOT_COUNT,
{
    match e {
        Elem::User => 0,
        Elem::Group => 1,
        Elem::Read => 2,
        Elem::Write => 3,
        Elem::Exec => 4,
        Elem::ExecSticky => 5,
        Elem::NoAccess => 6,
        Elem::File => 7,
        Elem::Dir => 8,
        Elem::Pipe => 9,
        Elem::SymLink => 10,
        Elem::BrokenSymLink => 11,
        Elem::BlockDevice => 12,
        Elem::CharDevice => 13,
        Elem::Socket => 14,
        Elem::Special => 15,
        Elem::HourOld => 16,
        Elem::DayOld => 17,
        Elem::Older => 18,
        Elem::FileSmall => 19,
        Elem::FileMedium => 20,
        Elem::FileLarge => 21,
    }
}

/// The color registry: the complete, immutable assignment of one palette
/// index to every display element. Lookup is total — the type invariant
/// guarantees an entry for every variant, so it can never fail.
pub struct ColorMap {
    table: Vec<u8>,
}

impl ColorMap {
    /// Every variant's slot holds exactly its documented palette index.
    #[verifier::type_invariant]
    pub closed spec fn wf(self) -> bool {
        &&& self.table@.len() == SLOT_COUNT
        &&& forall|e: Elem| self.table@[slot_of(e)] == color_index_of(e)
    }

    /// Looks up the palette index registered for a display element. Total:
    /// defined for every variant, and always returns the fixed table's value.
    pub fn get(&self, elem: &Elem) -> (c: u8)
        ensures
            c == color_index_of(*elem),
    {
        proof {
            use_type_invariant(&*self);
        }
        let i = slot(elem);
        self.table[i]
    }
}

/// Relies on `terminal_size::terminal_size`: reports `Some` geometry exactly
/// when standard output is an attached terminal whose size can be determined.
/// The answer depends on the process environment, so nothing is promised of
/// its value.
#[verifier::external_body]
fn stdout_is_tty() -> bool {
    terminal_size::terminal_size().is_some()
}

/// The rendering facade: holds the color registry when coloring is enabled,
/// and nothing when it is disabled. The decision is made once, at
/// construction, and is fixed for the value's lifetime.
pub struct Colors {
    colors: Option<ColorMap>,
}

impl Colors {
    /// Whether this facade decorates text at all.
    pub closed spec fn coloring_enabled(self) -> bool {
        self.colors is Some
    }

    /// What `colorize` yields: the text wrapped in the element's color when
    /// coloring is enabled, the text itself when it is not.
    pub open spec fn rendered(self, elem: Elem, text: Seq<char>) -> Seq<char> {
        if self.coloring_enabled() {
            crate::ansi::painted(color_index_of(elem), text)
        } else {
            text
        }
    }

    /// Probes whether standard output is an interactive terminal and builds
    /// the facade accordingly: the registry is stored exactly when a terminal
    /// is attached. Escape sequences written into a pipe or a redirected file
    /// would corrupt the stream, so coloring is then disabled.
    pub fn new() -> Self {
        let colors_on = stdout_is_tty();
        Colors::with_enabled(colors_on)
    }

    /// Builds the facade from an already-made decision: the registry is
    /// stored exactly when `enabled` holds.
    pub fn with_enabled(enabled: bool) -> (c: Self)
        ensures
            c.coloring_enabled() == enabled,
    {
        let colors = if enabled {
            Some(Colors::get_colour_map())
        } else {
            None
        };
        Colors { colors }
    }

    /// Renders `input` for display: wrapped in `elem`'s registered color when
    /// coloring is enabled, returned textually unchanged when it is not.
    pub fn colorize(&self, input: String, elem: &Elem) -> (r: String)
        ensures
            r@ == self.rendered(*elem, input@),
    {
        match &self.colors {
            Some(colors) => {
                let idx = colors.get(elem);
                crate::ansi::paint_fixed(idx, input)
            },
            None => crate::ansi::paint_plain(input),
        }
    }

    /// Builds the fixed element-to-color table, one entry per variant.
    pub fn get_colour_map() -> (m: ColorMap) {
        let mut table: Vec<u8> = Vec::new();
        // User / Group
        table.push(230);  // User: Cornsilk1
        table.push(187);  // Group: LightYellow3
        // Permissions
        table.push(40);  // Read: Green3
        table.push(192);  // Write: DarkOliveGreen1
        table.push(124);  // Exec: Red3
        table.push(13);  // ExecSticky: Fuschsia
        table.push(168);  // NoAccess: HotPink3
        // File Types
        table.push(184);  // File: Yellow3
        table.push(33);  // Dir: DodgerBlue1
        table.push(44);  // Pipe: DarkTurquoise
        table.push(44);  // SymLink: DarkTurquoise
        table.push(124);  // BrokenSymLink: Red3
        table.push(44);  // BlockDevice: DarkTurquoise
        table.push(44);  // CharDevice: DarkTurquoise
        table.push(44);  // Socket: DarkTurquoise
        table.push(44);  // Special: DarkTurquoise
        // Last Time Modified
        table.push(40);  // HourOld: Green3
        table.push(42);  // DayOld: SpringGreen2
        table.push(36);  // Older: DarkCyan
        // File Size
        table.push(229);  // FileSmall: Wheat1
        table.push(216);  // FileMedium: LightSalmon1
        table.push(172);  // FileLarge: Orange3
        ColorMap { table }
    }
}

/// With coloring disabled, rendering is the identity on the text: no escape
/// bytes are added and nothing in the input is interpreted, whatever the
/// element and whatever the text holds.
pub proof fn lemma_disabled_is_passthrough(c: Colors, elem: Elem, text: Seq<char>)
    requires
        !c.coloring_enabled(),
    ensures
        c.rendered(elem, text) == text,
{
}

/// With coloring enabled, stripping the escape sequences from the rendering
/// yields exactly the text that was given, for every element. Stated for
/// text that holds no escape character of its own.
pub proof fn lemma_enabled_strips_to_input(c: Colors, elem: Elem, text: Seq<char>)
    requires
        c.coloring_enabled(),
        forall|i: int| 0 <= i < text.len() ==> text[i] != '\u{1b}',
    ensures
        crate::ansi::strip_ansi_codes(c.rendered(elem, text)) == text,
{
    crate::ansi::lemma_strip_painted(color_index_of(elem), text);
}

/// Two facades built under the same environment decision render every
/// element and every text identically: the rendering depends only on the
/// one-time decision, never on the instance.
pub proof fn lemma_same_environment_same_rendering(
    c1: Colors,
    c2: Colors,
    elem: Elem,
    text: Seq<char>,
)
    requires
        c1.coloring_enabled() == c2.coloring_enabled(),
    ensures
        c1.rendered(elem, text) == c2.rendered(elem, text),
{
}

/// The non-regular, non-directory node kinds are visually grouped: symlinks,
/// pipes, device files, sockets and special files all resolve to one shared
/// palette index.
pub proof fn lemma_nonregular_nodes_share_color()
    ensures
        color_index_of(Elem::Pipe) == color_index_of(Elem::SymLink),
        color_index_of(Elem::BlockDevice) == color_index_of(Elem::SymLink),
        color_index_of(Elem::CharDevice) == color_index_of(Elem::SymLink),
        color_index_of(Elem::Socket) == color_index_of(Elem::SymLink),
        color_index_of(Elem::Special) == color_index_of(Elem::SymLink),
{
}

} // verus!

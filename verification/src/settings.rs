//! Persisted settings. The app stores them as JSON; this is the model the
//! rest of the library reads.
use vstd::prelude::*;
use vstd::string::StringSliceAdditionalSpecFns;

verus! {

/// The default menu hotkey, record style.
pub const DEFAULT_HOTKEY: &'static str = "Shift+F";

/// The hotkey that jumps straight to the Convert ring.
pub const DEFAULT_CONVERT_HOTKEY: &'static str = "Shift+C";

/// Where conversion output goes.
#[derive(Debug, Clone, PartialEq, Eq)]
pub enum OutputLocation {
    BesideOriginal,
    Folder(String),
    AskEachTime,
}

#[derive(Debug, Clone, Copy, PartialEq, Eq, Structural)]
pub enum Theme {
    System,
    Light,
    Dark,
}

impl Default for Theme {
    fn default() -> (r: Self)
        ensures
            r == Theme::System,
    {
        Theme::System
    }
}

#[derive(Debug, Clone, Copy, PartialEq, Eq, Structural)]
pub enum VideoPreset {
    Low,
    Medium,
    High,
    Lossless,
}

impl Default for VideoPreset {
    fn default() -> (r: Self)
        ensures
            r == VideoPreset::Medium,
    {
        VideoPreset::Medium
    }
}

#[derive(Debug, Clone, Copy, PartialEq, Eq, Structural)]
pub enum UpdateFrequency {
    Daily,
    Weekly,
    Never,
}

impl Default for UpdateFrequency {
    fn default() -> (r: Self)
        ensures
            r == UpdateFrequency::Weekly,
    {
        UpdateFrequency::Weekly
    }
}

/// 1 to 3 gradient colors (hex `#rrggbb`) for the active sector.
#[derive(Debug, Clone, PartialEq, Eq)]
pub struct Gradient(pub Vec<String>);

/// An ASCII hexadecimal digit, in either case.
pub open spec fn is_hex_digit(c: char) -> bool {
    ('0' <= c && c <= '9') || ('a' <= c && c <= 'f') || ('A' <= c && c <= 'F')
}

/// A color entry is well formed: `#rrggbb`, a `#` and six hex digits.
pub open spec fn is_color(c: Seq<char>) -> bool {
    &&& c.len() == 7
    &&& c[0] == '#'
    &&& forall|i: int| 1 <= i < 7 ==> is_hex_digit(#[trigger] c[i])
}

fn hex_digit(c: char) -> (r: bool)
    ensures
        r == is_hex_digit(c),
{
    ('0' <= c && c <= '9') || ('a' <= c && c <= 'f') || ('A' <= c && c <= 'F')
}

/// Whether `c` is a well-formed color entry.
fn color_ok(c: &str) -> (r: bool)
    ensures
        r == is_color(c@),
{
    if c.unicode_len() != 7 {
        return false;
    }
    if c.get_char(0) != '#' {
        return false;
    }
    let mut i: usize = 1;
    while i < 7
        invariant
            c@.len() == 7,
            1 <= i <= 7,
            forall|j: int| 1 <= j < i ==> is_hex_digit(#[trigger] c@[j]),
        decreases 7 - i,
    {
        if !hex_digit(c.get_char(i)) {
            return false;
        }
        i = i + 1;
    }
    true
}

/// A gradient holds one to three well-formed colors.
pub open spec fn is_valid_gradient(colors: Seq<Seq<char>>) -> bool {
    &&& 1 <= colors.len() <= 3
    &&& forall|i: int| 0 <= i < colors.len() ==> is_color(#[trigger] colors[i])
}

impl Gradient {
    pub open spec fn colors(&self) -> Seq<Seq<char>> {
        self.0@.map_values(|c: String| c@)
    }

    pub fn is_valid(&self) -> (r: bool)
        ensures
            r == is_valid_gradient(self.colors()),
    {
        let n = self.0.len();
        if n < 1 || n > 3 {
            return false;
        }
        let mut i: usize = 0;
        while i < n
            invariant
                n == self.0@.len(),
                n == self.colors().len(),
                i <= n,
                forall|j: int| 0 <= j < i ==> is_color(#[trigger] self.colors()[j]),
            decreases n - i,
        {
            assert(self.colors()[i as int] == self.0@[i as int]@);
            if !color_ok(self.0[i].as_str()) {
                return false;
            }
            i = i + 1;
        }
        true
    }
}

/// The color a newly added gradient entry starts with.
pub const NEW_GRADIENT_COLOR: &'static str = "#ffffff";

/// The most colors a gradient holds.
pub const MAX_GRADIENT_COLORS: usize = 3;

/// The colors after removing the one at `index`, unless it is the last left.
pub open spec fn removed_color(colors: Seq<Seq<char>>, index: int) -> Seq<Seq<char>> {
    if colors.len() > 1 { colors.remove(index) } else { colors }
}

/// The colors after adding a white one, unless there are three already.
pub open spec fn added_color(colors: Seq<Seq<char>>) -> Seq<Seq<char>> {
    if colors.len() < MAX_GRADIENT_COLORS { colors.push(NEW_GRADIENT_COLOR@) } else { colors }
}

impl Gradient {
    /// Removes the color at `index`, unless it is the last one left.
    pub fn remove_color(&mut self, index: usize)
        requires
            index < old(self).0@.len(),
        ensures
            final(self).colors() == removed_color(old(self).colors(), index as int),
    {
        let ghost before = self.0@;
        if self.0.len() > 1 {
            self.0.remove(index);
            assert(self.0@.map_values(|c: String| c@) =~= before.map_values(|c: String| c@).remove(index as int));
        }
    }

    /// Appends a white color, unless the gradient already holds three.
    pub fn add_color(&mut self)
        ensures
            final(self).colors() == added_color(old(self).colors()),
    {
        let ghost before = self.0@;
        if self.0.len() < MAX_GRADIENT_COLORS {
            self.0.push(NEW_GRADIENT_COLOR.to_owned());
            assert(self.0@.map_values(|c: String| c@) =~= before.map_values(|c: String| c@).push(NEW_GRADIENT_COLOR@));
        }
    }
}

/// Editing a gradient by adding and removing colors keeps it between one
/// and three colors, and every color it held stays well formed.
pub proof fn law_editing_keeps_gradient_valid(before: Seq<Seq<char>>, index: int)
    requires
        is_valid_gradient(before),
        0 <= index < before.len(),
    ensures
        is_valid_gradient(removed_color(before, index)),
        is_valid_gradient(added_color(before)),
{
    law_new_gradient_color_is_valid();
    if before.len() > 1 {
        let after = before.remove(index);
        assert forall|i: int| 0 <= i < after.len() implies is_color(#[trigger] after[i]) by {
            if i < index {
                assert(after[i] == before[i]);
            } else {
                assert(after[i] == before[i + 1]);
            }
        }
    }
    if before.len() < MAX_GRADIENT_COLORS {
        let after = before.push(NEW_GRADIENT_COLOR@);
        assert forall|i: int| 0 <= i < after.len() implies is_color(#[trigger] after[i]) by {
            if i < before.len() {
                assert(after[i] == before[i]);
            }
        }
    }
}

/// One frame of the settings form: at most one color removed (one the form
/// lists), then at most one added. The gradient still holds one to three
/// well-formed colors, whatever was clicked.
pub proof fn law_a_form_frame_keeps_gradient_valid(before: Seq<Seq<char>>, remove: Option<int>, add: bool)
    requires
        is_valid_gradient(before),
        remove matches Some(i) ==> 0 <= i < before.len(),
    ensures
        is_valid_gradient({
            let kept = match remove {
                Some(i) => removed_color(before, i),
                None => before,
            };
            if add { added_color(kept) } else { kept }
        }),
{
    let kept = match remove {
        Some(i) => removed_color(before, i),
        None => before,
    };
    match remove {
        Some(i) => law_editing_keeps_gradient_valid(before, i),
        None => {},
    }
    law_editing_keeps_gradient_valid(kept, 0);
}

/// The color a new entry starts with is well formed.
pub proof fn law_new_gradient_color_is_valid()
    ensures
        is_color(NEW_GRADIENT_COLOR@),
{
    reveal_strlit("#ffffff");
    assert(NEW_GRADIENT_COLOR@ =~= seq!['#', 'f', 'f', 'f', 'f', 'f', 'f']);
}

/// `directories::BaseDirs::new()`, then `data_local_dir()`: the per-user
/// local data directory, as text. It is none when the platform reports no
/// home directory, or when the directory is not valid UTF-8. It depends on the
/// environment, so nothing is stated of it.
#[verifier::external_body]
pub(crate) fn local_data_dir() -> (r: Option<String>) {
    match directories::BaseDirs::new() {
        Some(dirs) => dirs.data_local_dir().to_str().map(str::to_owned),
        None => None,
    }
}

/// Zest's own folder inside the local data directory.
pub open spec fn app_dir(data_dir: Seq<char>) -> Seq<char> {
    crate::path::join(data_dir, "Zest"@)
}

/// Where the settings file lives, given the local data directory.
pub open spec fn settings_file(data_dir: Seq<char>) -> Seq<char> {
    crate::path::join(app_dir(data_dir), "settings.json"@)
}

/// The settings file inside the local data directory `data_dir`.
pub fn settings_file_in(data_dir: &str) -> (r: String)
    ensures
        r@ == settings_file(data_dir@),
{
    let zest = crate::path::join_str(data_dir, "Zest");
    crate::path::join_str(zest.as_str(), "settings.json")
}

/// Where the settings file lives: `Zest/settings.json` in the local data
/// directory, none when there is no such directory.
pub fn config_path() -> (r: Option<String>)
    ensures
        r matches Some(p) ==> exists|d: Seq<char>| p@ == settings_file(d),
{
    match local_data_dir() {
        Some(dir) => {
            let p = settings_file_in(dir.as_str());
            assert(p@ == settings_file(dir@));
            Some(p)
        },
        None => None,
    }
}

/// The default gradient: warm orange to pink.
pub open spec fn default_gradient_colors() -> Seq<Seq<char>> {
    seq!["#ff8a3d"@, "#ff4d6d"@]
}

impl Default for Gradient {
    fn default() -> (r: Self)
        ensures
            r.colors() == default_gradient_colors(),
    {
        let r = Gradient(vec!["#ff8a3d".to_owned(), "#ff4d6d".to_owned()]);
        assert(r.colors() =~= default_gradient_colors());
        r
    }
}

/// Everything the user can configure.
#[derive(Debug, Clone, PartialEq)]
pub struct Settings {
    /// Record-style hotkey string.
    pub hotkey: String,
    pub output: OutputLocation,
    pub jpeg_quality: u8,
    pub video_preset: VideoPreset,
    pub audio_bitrate_kbps: u32,
    pub theme: Theme,
    /// Universal app font.
    pub font_family: String,
    pub gradient: Gradient,
    pub launch_at_startup: bool,
    pub update_frequency: UpdateFrequency,
    /// Gentle lossy-to-lossy warning toggle.
    pub warn_lossy_to_lossy: bool,
}

impl Default for Settings {
    fn default() -> (r: Self)
        ensures
            r.hotkey@ == DEFAULT_HOTKEY@,
            r.output == OutputLocation::BesideOriginal,
            r.jpeg_quality == 90,
            r.video_preset == VideoPreset::Medium,
            r.audio_bitrate_kbps == 192,
            r.theme == Theme::System,
            r.font_family@ == "Segoe UI Variable"@,
            r.gradient.colors() == default_gradient_colors(),
            !r.launch_at_startup,
            r.update_frequency == UpdateFrequency::Weekly,
            r.warn_lossy_to_lossy,
    {
        Settings {
            hotkey: DEFAULT_HOTKEY.to_owned(),
            output: OutputLocation::BesideOriginal,
            jpeg_quality: 90,
            video_preset: VideoPreset::Medium,
            audio_bitrate_kbps: 192,
            theme: Theme::System,
            font_family: "Segoe UI Variable".to_owned(),
            gradient: Gradient::default(),
            launch_at_startup: false,
            update_frequency: UpdateFrequency::Weekly,
            warn_lossy_to_lossy: true,
        }
    }
}

/// The default gradient is a valid one.
pub proof fn law_default_gradient_is_valid()
    ensures
        is_valid_gradient(default_gradient_colors()),
{
    reveal_strlit("#ff8a3d");
    reveal_strlit("#ff4d6d");
    let a = "#ff8a3d"@;
    let b = "#ff4d6d"@;
    assert(a =~= seq!['#', 'f', 'f', '8', 'a', '3', 'd']);
    assert(b =~= seq!['#', 'f', 'f', '4', 'd', '6', 'd']);
    assert(is_color(a));
    assert(is_color(b));
    let colors = default_gradient_colors();
    assert(colors[0] == a && colors[1] == b);
}

} // verus!

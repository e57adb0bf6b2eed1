//! Background configuration: which source is shown on which output.
//!
//! Executable values hold `String`s and `Vec`s; contracts speak of their views,
//! in which text is a `Seq<char>` and a list is a `Seq`.

use vstd::prelude::*;

use crate::power_saving::PowerSavingConfig;
use crate::text::same_text;

verus! {

/// Output selector of the entry that applies to every output without an entry
/// of its own.
pub const ALL_OUTPUTS: &'static str = "all";

/// Key of the list of outputs that have an entry of their own.
pub const BACKGROUNDS: &'static str = "backgrounds";

/// Key of the entry for all outputs.
pub const DEFAULT_BACKGROUND: &'static str = "all";

/// Key of the switch that shows the default background everywhere.
pub const SAME_ON_ALL: &'static str = "same-on-all";

/// Key of the preference for a low-power graphics adapter.
pub const PREFER_LOW_POWER: &'static str = "prefer-low-power";

/// What the key of an output's entry starts with; the output's name follows.
pub const OUTPUT_PREFIX: &'static str = "output.";

/// Lowest frame rate a shader may run at.
pub const MIN_FRAME_RATE: u8 = 1;

/// Highest frame rate a shader may run at.
pub const MAX_FRAME_RATE: u8 = 60;

/// Language a fragment program is written in.
#[derive(Clone, Copy, Debug, PartialEq, Eq, Structural)]
pub enum ShaderLanguage {
    Wgsl,
    Glsl,
}

/// Where the text of a fragment program comes from.
#[derive(Debug)]
pub enum ShaderContent {
    /// A file to read the program from.
    Path(String),
    /// The program itself.
    Code(String),
}

pub enum ShaderContentView {
    Path(Seq<char>),
    Code(Seq<char>),
}

impl View for ShaderContent {
    type V = ShaderContentView;

    open spec fn view(&self) -> ShaderContentView {
        match self {
            ShaderContent::Path(p) => ShaderContentView::Path(p@),
            ShaderContent::Code(c) => ShaderContentView::Code(c@),
        }
    }
}

impl Clone for ShaderContent {
    fn clone(&self) -> (r: Self)
        ensures
            r@ == self@,
    {
        match self {
            ShaderContent::Path(p) => ShaderContent::Path(p.clone()),
            ShaderContent::Code(c) => ShaderContent::Code(c.clone()),
        }
    }
}

/// An animated background: a fragment program, an optional image it may
/// sample, and the rate at which it is redrawn.
#[derive(Debug)]
pub struct ShaderSource {
    pub shader: ShaderContent,
    pub background_image: Option<String>,
    pub language: ShaderLanguage,
    /// Frames per second as configured; see [`ShaderSource::clamped_frame_rate`].
    pub frame_rate: u8,
}

pub struct ShaderSourceView {
    pub shader: ShaderContentView,
    pub background_image: Option<Seq<char>>,
    pub language: ShaderLanguage,
    pub frame_rate: u8,
}

impl View for ShaderSource {
    type V = ShaderSourceView;

    open spec fn view(&self) -> ShaderSourceView {
        ShaderSourceView {
            shader: self.shader@,
            background_image: match self.background_image {
                Some(p) => Some(p@),
                None => None,
            },
            language: self.language,
            frame_rate: self.frame_rate,
        }
    }
}

/// `rate` brought into the range from [`MIN_FRAME_RATE`] to [`MAX_FRAME_RATE`].
pub open spec fn clamp_frame_rate(rate: u8) -> u8 {
    if rate < MIN_FRAME_RATE {
        MIN_FRAME_RATE
    } else if rate > MAX_FRAME_RATE {
        MAX_FRAME_RATE
    } else {
        rate
    }
}

/// Executable form of [`clamp_frame_rate`].
pub fn clamped_rate(rate: u8) -> (r: u8)
    ensures
        r == clamp_frame_rate(rate),
        MIN_FRAME_RATE <= r <= MAX_FRAME_RATE,
{
    if rate < MIN_FRAME_RATE {
        MIN_FRAME_RATE
    } else if rate > MAX_FRAME_RATE {
        MAX_FRAME_RATE
    } else {
        rate
    }
}

impl ShaderSource {
    /// The frame rate that is used for this source.
    pub fn clamped_frame_rate(&self) -> (r: u8)
        ensures
            r == clamp_frame_rate(self.frame_rate),
            MIN_FRAME_RATE <= r <= MAX_FRAME_RATE,
    {
        clamped_rate(self.frame_rate)
    }

    /// This source with its frame rate brought into range, as a configuration
    /// loader stores it.
    pub fn normalized(self) -> (r: Self)
        ensures
            r@ == (ShaderSourceView { frame_rate: clamp_frame_rate(self.frame_rate), ..self@ }),
    {
        let rate = clamped_rate(self.frame_rate);
        ShaderSource {
            shader: self.shader,
            background_image: self.background_image,
            language: self.language,
            frame_rate: rate,
        }
    }
}

impl Clone for ShaderSource {
    fn clone(&self) -> (r: Self)
        ensures
            r@ == self@,
    {
        let background_image = match &self.background_image {
            Some(p) => Some(p.clone()),
            None => None,
        };
        ShaderSource {
            shader: self.shader.clone(),
            background_image,
            language: self.language,
            frame_rate: self.frame_rate,
        }
    }
}

/// A colour. Each channel holds the bit pattern of a single-precision
/// intensity between 0 and 1, so that a colour passes through unchanged.
#[derive(Clone, Copy, Debug, PartialEq, Eq, Structural)]
pub struct Rgb {
    pub red: u32,
    pub green: u32,
    pub blue: u32,
}

/// A radial gradient through one or more colours.
#[derive(Debug)]
pub struct Gradient {
    pub colors: Vec<Rgb>,
    /// Bit pattern of the single-precision radius.
    pub radius: u32,
}

/// A background without an image.
#[derive(Debug)]
pub enum Color {
    Single(Rgb),
    Gradient(Gradient),
}

pub enum ColorView {
    Single(Rgb),
    Gradient { colors: Seq<Rgb>, radius: u32 },
}

impl View for Color {
    type V = ColorView;

    open spec fn view(&self) -> ColorView {
        match self {
            Color::Single(c) => ColorView::Single(*c),
            Color::Gradient(g) => ColorView::Gradient { colors: g.colors@, radius: g.radius },
        }
    }
}

impl Clone for Color {
    fn clone(&self) -> (r: Self)
        ensures
            r@ == self@,
    {
        match self {
            Color::Single(c) => Color::Single(*c),
            Color::Gradient(g) => {
                let mut colors: Vec<Rgb> = Vec::new();
                let mut i: usize = 0;
                while i < g.colors.len()
                    invariant
                        i <= g.colors.len(),
                        colors@ == g.colors@.subrange(0, i as int),
                    decreases g.colors.len() - i,
                {
                    colors.push(g.colors[i]);
                    i = i + 1;
                }
                assert(colors@ == g.colors@);
                Color::Gradient(Gradient { colors, radius: g.radius })
            },
        }
    }
}

/// What an entry shows.
#[derive(Debug)]
pub enum Source {
    /// An image file, or a directory of image files.
    Path(String),
    Color(Color),
    Shader(ShaderSource),
}

pub enum SourceView {
    Path(Seq<char>),
    Color(ColorView),
    Shader(ShaderSourceView),
}

impl View for Source {
    type V = SourceView;

    open spec fn view(&self) -> SourceView {
        match self {
            Source::Path(p) => SourceView::Path(p@),
            Source::Color(c) => SourceView::Color(c@),
            Source::Shader(s) => SourceView::Shader(s@),
        }
    }
}

impl Source {
    /// Whether the source is drawn by a fragment program.
    pub fn is_shader(&self) -> (r: bool)
        ensures
            r == (self@ is Shader),
    {
        match self {
            Source::Shader(_) => true,
            _ => false,
        }
    }

    /// This source as a configuration loader stores it: a shader's frame rate
    /// is brought into range, anything else is kept.
    pub fn normalized(self) -> (r: Self)
        ensures
            r@ == normalized_source(self@),
    {
        match self {
            Source::Shader(s) => Source::Shader(s.normalized()),
            other => other,
        }
    }
}

/// A source after loading: see [`Source::normalized`].
pub open spec fn normalized_source(source: SourceView) -> SourceView {
    match source {
        SourceView::Shader(s) => SourceView::Shader(
            ShaderSourceView { frame_rate: clamp_frame_rate(s.frame_rate), ..s },
        ),
        other => other,
    }
}

impl Clone for Source {
    fn clone(&self) -> (r: Self)
        ensures
            r@ == self@,
    {
        match self {
            Source::Path(p) => Source::Path(p.clone()),
            Source::Color(c) => Source::Color(c.clone()),
            Source::Shader(s) => Source::Shader(s.clone()),
        }
    }
}

/// One background: the output it is for and what it shows there.
#[derive(Debug)]
pub struct Entry {
    /// The name of an output, or [`ALL_OUTPUTS`].
    pub output: String,
    pub source: Source,
}

pub struct EntryView {
    pub output: Seq<char>,
    pub source: SourceView,
}

impl View for Entry {
    type V = EntryView;

    open spec fn view(&self) -> EntryView {
        EntryView { output: self.output@, source: self.source@ }
    }
}

impl Clone for Entry {
    fn clone(&self) -> (r: Self)
        ensures
            r@ == self@,
    {
        Entry { output: self.output.clone(), source: self.source.clone() }
    }
}

/// Whether an entry with selector `selector` applies to an output named
/// `name`: it names that output, or it is the entry for all outputs.
pub open spec fn selects(selector: Seq<char>, name: Option<Seq<char>>) -> bool {
    selector == ALL_OUTPUTS@ || Some(selector) == name
}

/// The entry for all outputs that is used when none is configured: solid
/// black.
pub open spec fn fallback_entry() -> EntryView {
    EntryView {
        output: ALL_OUTPUTS@,
        source: SourceView::Color(ColorView::Single(Rgb { red: 0, green: 0, blue: 0 })),
    }
}

impl Entry {
    pub fn new(output: String, source: Source) -> (r: Self)
        ensures
            r@ == (EntryView { output: output@, source: source@ }),
    {
        Entry { output, source }
    }

    /// The entry of [`fallback_entry`].
    pub fn fallback() -> (r: Self)
        ensures
            r@ == fallback_entry(),
    {
        Entry {
            output: String::from_str(ALL_OUTPUTS),
            source: Source::Color(Color::Single(Rgb { red: 0, green: 0, blue: 0 })),
        }
    }

    /// Whether this is the entry for all outputs.
    pub fn is_for_all(&self) -> (r: bool)
        ensures
            r == (self@.output == ALL_OUTPUTS@),
    {
        same_text(self.output.as_str(), ALL_OUTPUTS)
    }

    /// Whether this entry applies to an output of the given name.
    pub fn applies_to(&self, name: &Option<String>) -> (r: bool)
        ensures
            r == selects(
                self@.output,
                match name {
                    Some(n) => Some(n@),
                    None => None,
                },
            ),
    {
        if self.is_for_all() {
            return true;
        }
        match name {
            Some(n) => same_text(self.output.as_str(), n.as_str()),
            None => false,
        }
    }

    /// Same entry with the source as a loader stores it.
    pub fn normalized(self) -> (r: Self)
        ensures
            r@ == normalized_entry(self@),
    {
        Entry { output: self.output, source: self.source.normalized() }
    }
}

/// An entry after loading: see [`Entry::normalized`].
pub open spec fn normalized_entry(entry: EntryView) -> EntryView {
    EntryView { source: normalized_source(entry.source), ..entry }
}

/// The views of a list of entries, in order.
pub open spec fn entry_views(entries: Seq<Entry>) -> Seq<EntryView> {
    entries.map_values(|e: Entry| e@)
}

/// The position of the first entry for the output `name` among the first
/// `limit` entries, if there is one.
pub open spec fn position_of(entries: Seq<EntryView>, name: Seq<char>, limit: int) -> Option<int>
    decreases limit,
{
    if limit <= 0 {
        None
    } else {
        match position_of(entries, name, limit - 1) {
            Some(i) => Some(i),
            None => if limit <= entries.len() && entries[limit - 1].output == name {
                Some(limit - 1)
            } else {
                None
            },
        }
    }
}

/// What [`position_of`] finds: the least position below `limit` that holds
/// an entry for `name`.
pub proof fn lemma_position_of(entries: Seq<EntryView>, name: Seq<char>, limit: int)
    requires
        limit <= entries.len(),
    ensures
        match position_of(entries, name, limit) {
            Some(i) => 0 <= i < limit && entries[i].output == name && forall|k: int|
                0 <= k < i ==> (#[trigger] entries[k]).output != name,
            None => forall|k: int| 0 <= k < limit ==> (#[trigger] entries[k]).output != name,
        },
    decreases limit,
{
    if limit > 0 {
        lemma_position_of(entries, name, limit - 1);
    }
}

/// Once an entry for `name` is found below `limit`, it is found below every
/// larger limit too.
pub proof fn lemma_position_stays(entries: Seq<EntryView>, name: Seq<char>, limit: int)
    requires
        0 < limit <= entries.len(),
        position_of(entries, name, limit - 1) is None,
        entries[limit - 1].output == name,
    ensures
        position_of(entries, name, entries.len() as int) == Some(limit - 1),
{
    lemma_position_of(entries, name, limit);
    lemma_position_of(entries, name, entries.len() as int);
    lemma_position_of(entries, name, limit - 1);
}

/// Where the first entry for the output `name` is in a list of entries.
pub fn find_entry(entries: &Vec<Entry>, name: &str) -> (r: Option<usize>)
    ensures
        match r {
            Some(i) => position_of(entry_views(entries@), name@, entries@.len() as int) == Some(
                i as int,
            ) && i < entries@.len(),
            None => position_of(entry_views(entries@), name@, entries@.len() as int) is None,
        },
{
    let mut i: usize = 0;
    while i < entries.len()
        invariant
            i <= entries.len(),
            position_of(entry_views(entries@), name@, i as int) is None,
        decreases entries.len() - i,
    {
        if same_text(entries[i].output.as_str(), name) {
            proof {
                lemma_position_stays(entry_views(entries@), name@, i as int + 1);
            }
            return Some(i);
        }
        i = i + 1;
    }
    None
}

/// Whether two optional texts are the same.
pub fn same_optional_text(a: &Option<String>, b: &Option<String>) -> (r: bool)
    ensures
        r == (match a {
            Some(t) => Some(t@),
            None => None,
        } == match b {
            Some(t) => Some(t@),
            None => None,
        }),
{
    match a {
        Some(x) => match b {
            Some(y) => same_text(x.as_str(), y.as_str()),
            None => false,
        },
        None => b.is_none(),
    }
}

impl ShaderContent {
    /// Whether two shader contents are the same.
    pub fn same_as(&self, other: &ShaderContent) -> (r: bool)
        ensures
            r == (self@ == other@),
    {
        match self {
            ShaderContent::Path(a) => match other {
                ShaderContent::Path(b) => same_text(a.as_str(), b.as_str()),
                ShaderContent::Code(_) => false,
            },
            ShaderContent::Code(a) => match other {
                ShaderContent::Path(_) => false,
                ShaderContent::Code(b) => same_text(a.as_str(), b.as_str()),
            },
        }
    }
}

impl ShaderSource {
    /// Whether two shader sources are the same.
    pub fn same_as(&self, other: &ShaderSource) -> (r: bool)
        ensures
            r == (self@ == other@),
    {
        self.shader.same_as(&other.shader) && same_optional_text(
            &self.background_image,
            &other.background_image,
        ) && self.language == other.language && self.frame_rate == other.frame_rate
    }
}

/// Whether two lists of colours are the same.
pub fn same_colors(a: &Vec<Rgb>, b: &Vec<Rgb>) -> (r: bool)
    ensures
        r == (a@ == b@),
{
    if a.len() != b.len() {
        return false;
    }
    let mut i: usize = 0;
    while i < a.len()
        invariant
            i <= a.len(),
            a.len() == b.len(),
            forall|k: int| 0 <= k < i ==> a@[k] == b@[k],
        decreases a.len() - i,
    {
        if a[i] != b[i] {
            assert(a@[i as int] != b@[i as int]);
            return false;
        }
        i = i + 1;
    }
    assert(a@ =~= b@);
    true
}

impl Color {
    /// Whether two colours, or two gradients, are the same.
    pub fn same_as(&self, other: &Color) -> (r: bool)
        ensures
            r == (self@ == other@),
    {
        match self {
            Color::Single(a) => match other {
                Color::Single(b) => *a == *b,
                Color::Gradient(_) => false,
            },
            Color::Gradient(a) => match other {
                Color::Single(_) => false,
                Color::Gradient(b) => a.radius == b.radius && same_colors(&a.colors, &b.colors),
            },
        }
    }
}

impl Source {
    /// Whether two sources are the same.
    pub fn same_as(&self, other: &Source) -> (r: bool)
        ensures
            r == (self@ == other@),
    {
        match self {
            Source::Path(a) => match other {
                Source::Path(b) => same_text(a.as_str(), b.as_str()),
                _ => false,
            },
            Source::Color(a) => match other {
                Source::Color(b) => a.same_as(b),
                _ => false,
            },
            Source::Shader(a) => match other {
                Source::Shader(b) => a.same_as(b),
                _ => false,
            },
        }
    }
}

impl Entry {
    /// Whether two entries are the same.
    pub fn same_as(&self, other: &Entry) -> (r: bool)
        ensures
            r == (self@ == other@),
    {
        same_text(self.output.as_str(), other.output.as_str()) && self.source.same_as(
            &other.source,
        )
    }
}

/// The configuration the engine works from.
#[derive(Debug)]
pub struct Config {
    /// Shown on every output that has no entry in `backgrounds`.
    pub default_background: Entry,
    /// Entries for single outputs, in configured order.
    pub backgrounds: Vec<Entry>,
    /// Whether every output shows the default background.
    pub same_on_all: bool,
    pub power_saving: PowerSavingConfig,
}

pub struct ConfigView {
    pub default_background: EntryView,
    pub backgrounds: Seq<EntryView>,
    pub same_on_all: bool,
    pub power_saving: PowerSavingConfig,
}

impl View for Config {
    type V = ConfigView;

    open spec fn view(&self) -> ConfigView {
        ConfigView {
            default_background: self.default_background@,
            backgrounds: entry_views(self.backgrounds@),
            same_on_all: self.same_on_all,
            power_saving: self.power_saving,
        }
    }
}

/// The configuration used when none can be loaded.
pub open spec fn default_config() -> ConfigView {
    ConfigView {
        default_background: fallback_entry(),
        backgrounds: Seq::empty(),
        same_on_all: true,
        power_saving: PowerSavingConfig::spec_default(),
    }
}

impl ConfigView {
    /// The default entry is for all outputs, and no two of the other entries
    /// are for the same output.
    pub open spec fn wf(self) -> bool {
        &&& self.default_background.output == ALL_OUTPUTS@
        &&& forall|i: int, j: int|
            0 <= i < j < self.backgrounds.len() ==> (#[trigger] self.backgrounds[i]).output != (
            #[trigger] self.backgrounds[j]).output
    }

    /// Whether some entry, the default one included, is drawn by a shader.
    pub open spec fn uses_shader(self) -> bool {
        self.default_background.source is Shader || exists|i: int|
            0 <= i < self.backgrounds.len() && (#[trigger] self.backgrounds[i]).source is Shader
    }
}

impl Default for Config {
    fn default() -> (r: Self)
        ensures
            r@ == default_config(),
    {
        let r = Config {
            default_background: Entry::fallback(),
            backgrounds: Vec::new(),
            same_on_all: true,
            power_saving: PowerSavingConfig::default(),
        };
        assert(r@.backgrounds =~= Seq::empty());
        r
    }
}

impl Config {
    /// Whether some entry, the default one included, is drawn by a shader.
    pub fn uses_shader(&self) -> (r: bool)
        ensures
            r == self@.uses_shader(),
    {
        if self.default_background.source.is_shader() {
            return true;
        }
        let mut i: usize = 0;
        while i < self.backgrounds.len()
            invariant
                i <= self.backgrounds.len(),
                forall|k: int| 0 <= k < i ==> !((#[trigger] self@.backgrounds[k]).source is Shader),
            decreases self.backgrounds.len() - i,
        {
            if self.backgrounds[i].source.is_shader() {
                assert(self@.backgrounds[i as int].source is Shader);
                return true;
            }
            i = i + 1;
        }
        false
    }
}

} // verus!

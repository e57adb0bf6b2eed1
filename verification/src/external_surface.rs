//! The background of a user, for surfaces that the engine does not draw.

use vstd::prelude::*;

use crate::config::{Color, ColorView, Config, Rgb, Source, SourceView};
use crate::context::Context;
use crate::text::same_text;

verus! {

/// What a background is drawn from, where it stands still.
#[derive(Debug)]
pub enum BackgroundSource {
    /// An image file, or a directory of image files.
    Image(String),
    SolidColor(Rgb),
    Gradient { colors: Vec<Rgb>, radius: u32 },
    /// An animated background, which has no still form.
    Shader,
}

pub enum BackgroundSourceView {
    Image(Seq<char>),
    SolidColor(Rgb),
    Gradient { colors: Seq<Rgb>, radius: u32 },
    Shader,
}

impl View for BackgroundSource {
    type V = BackgroundSourceView;

    open spec fn view(&self) -> BackgroundSourceView {
        match self {
            BackgroundSource::Image(path) => BackgroundSourceView::Image(path@),
            BackgroundSource::SolidColor(color) => BackgroundSourceView::SolidColor(*color),
            BackgroundSource::Gradient { colors, radius } => BackgroundSourceView::Gradient {
                colors: colors@,
                radius: *radius,
            },
            BackgroundSource::Shader => BackgroundSourceView::Shader,
        }
    }
}

/// Why a background could not be had.
#[derive(Debug)]
pub enum ExternalSurfaceError {
    Config(String),
    Shader(String),
    Image(String),
}

impl ExternalSurfaceError {
    /// What went wrong, followed by the reason.
    pub open spec fn spec_message(&self) -> Seq<char> {
        match self {
            ExternalSurfaceError::Config(reason) => "Failed to load config: "@ + reason@,
            ExternalSurfaceError::Shader(reason) => "Failed to create shader: "@ + reason@,
            ExternalSurfaceError::Image(reason) => "Failed to load image: "@ + reason@,
        }
    }

    /// The error as text.
    pub fn message(&self) -> (r: String)
        ensures
            r@ == self.spec_message(),
    {
        match self {
            ExternalSurfaceError::Config(reason) => String::from_str(
                "Failed to load config: ",
            ).concat(reason.as_str()),
            ExternalSurfaceError::Shader(reason) => String::from_str(
                "Failed to create shader: ",
            ).concat(reason.as_str()),
            ExternalSurfaceError::Image(reason) => String::from_str(
                "Failed to load image: ",
            ).concat(reason.as_str()),
        }
    }
}

/// The still form of a configured source.
pub open spec fn background_of(source: SourceView) -> BackgroundSourceView {
    match source {
        SourceView::Path(path) => BackgroundSourceView::Image(path),
        SourceView::Color(ColorView::Single(color)) => BackgroundSourceView::SolidColor(color),
        SourceView::Color(ColorView::Gradient { colors, radius }) => BackgroundSourceView::Gradient {
            colors,
            radius,
        },
        SourceView::Shader(_) => BackgroundSourceView::Shader,
    }
}

/// Executable form of [`background_of`].
pub fn source_to_background(source: &Source) -> (r: BackgroundSource)
    ensures
        r@ == background_of(source@),
{
    match source {
        Source::Path(path) => BackgroundSource::Image(path.clone()),
        Source::Color(color) => match color.clone() {
            Color::Single(single) => BackgroundSource::SolidColor(single),
            Color::Gradient(gradient) => BackgroundSource::Gradient {
                colors: gradient.colors,
                radius: gradient.radius,
            },
        },
        Source::Shader(_) => BackgroundSource::Shader,
    }
}

/// The background of a user whose configuration store is `store`: the
/// still form of the default background. `None` for a user without a store.
pub fn load_background_source(store: &Option<Context>) -> (r: Option<BackgroundSource>)
    ensures
        match store {
            Some(context) => r is Some && r->Some_0@ == background_of(
                context@.config().default_background.source,
            ),
            None => r is None,
        },
{
    match store {
        Some(context) => {
            let config = Config::load(context);
            Some(source_to_background(&config.default_background.source))
        },
        None => None,
    }
}

/// Whether the background of a user whose configuration store is `store` is
/// animated.
pub fn has_shader_background(store: &Option<Context>) -> (r: bool)
    ensures
        r == (store matches Some(context)
            && context@.config().default_background.source is Shader),
{
    match load_background_source(store) {
        Some(BackgroundSource::Shader) => true,
        _ => false,
    }
}

/// Whether a file with the extension `extension`, in lower case, holds an
/// image that can be shown.
pub open spec fn image_extension(extension: Seq<char>) -> bool {
    ||| extension == "jpg"@
    ||| extension == "jpeg"@
    ||| extension == "png"@
    ||| extension == "webp"@
    ||| extension == "gif"@
    ||| extension == "bmp"@
}

/// Executable form of [`image_extension`].
pub fn is_image_extension(extension: &str) -> (r: bool)
    ensures
        r == image_extension(extension@),
{
    same_text(extension, "jpg") || same_text(extension, "jpeg") || same_text(extension, "png")
        || same_text(extension, "webp") || same_text(extension, "gif") || same_text(
        extension,
        "bmp",
    )
}

} // verus!

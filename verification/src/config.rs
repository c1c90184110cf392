//! The settings of a game, read from a YAML document.
//!
//! The document is a mapping.  Each setting is a sequence under its key:
//! `window` holds the height and the width of the playfield, `offset`,
//! `filename` and `scroll` hold one value each.
//!
//! The YAML itself is read by `yaml_rust`.  What that crate returns is taken
//! on trust and has a name here ([`yaml_documents`] and the four names that
//! follow it); what is made of it is verified.
//!
//! The loader of `yaml_rust` calls itself once for each level at which the
//! collections of a document are nested, and nothing in it bounds the
//! nesting of block collections: a text of dashes and blanks nests half as
//! deep as it is long.  A text of many thousand characters can so exhaust
//! the stack of its thread.  The loader is therefore never handed more than
//! [`MAX_CONFIG_CHARS`] characters; a longer text is refused before it is
//! looked at.

use vstd::prelude::*;
use yaml_rust::{ScanError, Yaml, YamlLoader};
use crate::error::{ConfigurationError, Setting};

verus! {

/// The longest text of settings that is read, in characters.  Every level
/// of nesting takes a character at least, so that no text within this bound
/// nests deeper than the bound.
pub const MAX_CONFIG_CHARS: usize = 512;

/// Key of the playfield's height and width.
pub const WINDOW_KEY: &'static str = "window";

/// Key of the start offset.
pub const OFFSET_KEY: &'static str = "offset";

/// Key of the chart file's path.
pub const FILENAME_KEY: &'static str = "filename";

/// Key of the scroll speed.
pub const SCROLL_KEY: &'static str = "scroll";

/// The settings of a game.
#[derive(Debug, PartialEq, Eq)]
pub struct GameConfig {
    /// Height of the playfield, in pixels.
    pub height: i64,
    /// Width of the playfield, in pixels.
    pub width: i64,
    /// Milliseconds to wait before the audio starts.
    pub offset: i64,
    /// Path of the chart file.
    pub filename: String,
    /// Scroll speed, in pixels per second; never zero in settings that
    /// [`GameConfig::from_settings`] or [`load_config`] returned.
    pub scroll_speed: i64,
}

/// The mathematical content of a [`GameConfig`].
pub struct GameConfigView {
    pub height: int,
    pub width: int,
    pub offset: int,
    pub filename: Seq<char>,
    pub scroll_speed: int,
}

impl View for GameConfig {
    type V = GameConfigView;

    open spec fn view(&self) -> GameConfigView {
        GameConfigView {
            height: self.height as int,
            width: self.width as int,
            offset: self.offset as int,
            filename: self.filename@,
            scroll_speed: self.scroll_speed as int,
        }
    }
}

impl Clone for GameConfig {
    fn clone(&self) -> (copy: GameConfig)
        ensures
            copy@ == self@,
    {
        GameConfig {
            height: self.height,
            width: self.width,
            offset: self.offset,
            filename: self.filename.clone(),
            scroll_speed: self.scroll_speed,
        }
    }
}

/// `yaml_rust::Yaml`, a node of a YAML document.  Nothing is known here of
/// what is inside one.
#[verifier::external_type_specification]
#[verifier::external_body]
pub struct ExYaml(yaml_rust::Yaml);

/// `yaml_rust::ScanError`, what the loader says of a text that is no YAML.
/// Nothing is known here of what is inside one.
#[verifier::external_type_specification]
#[verifier::external_body]
pub struct ExScanError(yaml_rust::ScanError);

/// The documents that `YamlLoader::load_from_str` finds in a text; `None`
/// where it reports an error.
pub uninterp spec fn yaml_documents(text: Seq<char>) -> Option<Seq<Yaml>>;

/// What indexing a `Yaml` by a `&str` gives.
pub uninterp spec fn yaml_entry(node: Yaml, key: Seq<char>) -> Yaml;

/// What indexing a `Yaml` by a `usize` gives.
pub uninterp spec fn yaml_element(node: Yaml, index: int) -> Yaml;

/// What `Yaml::as_i64` gives.
pub uninterp spec fn yaml_integer(node: Yaml) -> Option<i64>;

/// What `Yaml::as_str` gives.
pub uninterp spec fn yaml_text(node: Yaml) -> Option<Seq<char>>;

/// `YamlLoader::load_from_str`: the documents of a YAML text, or the error
/// that the loader reports.  The result is a function of the text alone and
/// goes by the name [`yaml_documents`].
///
/// The loader recurses once for each level of nesting and bounds only the
/// nesting of flow collections, so that it need not return on a text that
/// nests very deep.  The text is held to [`MAX_CONFIG_CHARS`] characters,
/// which holds the depth of the recursion to as many levels.
#[verifier::external_body]
fn load_documents(text: &str) -> (documents: Result<Vec<Yaml>, ScanError>)
    requires
        text@.len() <= MAX_CONFIG_CHARS,
    ensures
        documents matches Ok(found) ==> yaml_documents(text@) == Some(found@),
        documents is Err ==> yaml_documents(text@) is None,
{
    YamlLoader::load_from_str(text)
}

/// `Index<&str>` of `Yaml`: the value under a key of a mapping.  It returns
/// for every node and key, and what it returns goes by the name
/// [`yaml_entry`].
#[verifier::external_body]
fn entry<'a>(node: &'a Yaml, key: &str) -> (found: &'a Yaml)
    ensures
        *found == yaml_entry(*node, key@),
{
    &node[key]
}

/// `Index<usize>` of `Yaml`: the value at a position of a sequence.  It
/// returns for every node and position, and what it returns goes by the
/// name [`yaml_element`].
#[verifier::external_body]
fn element<'a>(node: &'a Yaml, index: usize) -> (found: &'a Yaml)
    ensures
        *found == yaml_element(*node, index as int),
{
    &node[index]
}

/// `Yaml::as_i64`: the integer that a node is.  What it returns goes by the
/// name [`yaml_integer`].
pub assume_specification[ Yaml::as_i64 ](node: &Yaml) -> (value: Option<i64>)
    ensures
        value == yaml_integer(*node),
;

/// `Yaml::as_str`: the text that a node is.  What it returns goes by the
/// name [`yaml_text`].
pub assume_specification<'a>[ Yaml::as_str ](node: &'a Yaml) -> (value: Option<&'a str>)
    ensures
        value matches Some(text) ==> yaml_text(*node) == Some(text@),
        value is None ==> yaml_text(*node) is None,
;

/// The settings that five values amount to.  Each has to be there, in the
/// order height, width, offset, file name, scroll speed; and the scroll
/// speed must not be zero.
pub open spec fn settings_of(
    height: Option<i64>,
    width: Option<i64>,
    offset: Option<i64>,
    filename: Option<Seq<char>>,
    scroll_speed: Option<i64>,
) -> Result<GameConfigView, ConfigurationError> {
    if height is None {
        Err(ConfigurationError::InvalidSetting(Setting::WindowHeight))
    } else if width is None {
        Err(ConfigurationError::InvalidSetting(Setting::WindowWidth))
    } else if offset is None {
        Err(ConfigurationError::InvalidSetting(Setting::Offset))
    } else if filename is None {
        Err(ConfigurationError::InvalidSetting(Setting::Filename))
    } else if scroll_speed is None {
        Err(ConfigurationError::InvalidSetting(Setting::ScrollSpeed))
    } else if scroll_speed->0 == 0 {
        Err(ConfigurationError::ZeroScrollSpeed)
    } else {
        Ok(
            GameConfigView {
                height: height->0 as int,
                width: width->0 as int,
                offset: offset->0 as int,
                filename: filename->0,
                scroll_speed: scroll_speed->0 as int,
            },
        )
    }
}

/// The value at `index` of the sequence that `document` holds under `key`.
pub open spec fn setting_at(document: Yaml, key: Seq<char>, index: int) -> Yaml {
    yaml_element(yaml_entry(document, key), index)
}

/// The settings that a YAML document holds.
pub open spec fn settings_in(document: Yaml) -> Result<GameConfigView, ConfigurationError> {
    settings_of(
        yaml_integer(setting_at(document, WINDOW_KEY@, 0)),
        yaml_integer(setting_at(document, WINDOW_KEY@, 1)),
        yaml_integer(setting_at(document, OFFSET_KEY@, 0)),
        yaml_text(setting_at(document, FILENAME_KEY@, 0)),
        yaml_integer(setting_at(document, SCROLL_KEY@, 0)),
    )
}

/// The settings that a YAML text holds: those of its first document.  A
/// text of more than [`MAX_CONFIG_CHARS`] characters holds none, whatever
/// it says.
pub open spec fn config_of(text: Seq<char>) -> Result<GameConfigView, ConfigurationError> {
    if text.len() > MAX_CONFIG_CHARS {
        Err(ConfigurationError::DocumentTooLong)
    } else {
        match yaml_documents(text) {
            None => Err(ConfigurationError::InvalidDocument),
            Some(documents) => if documents.len() == 0 {
                Err(ConfigurationError::MissingDocument)
            } else {
                settings_in(documents[0])
            },
        }
    }
}

/// What a result of [`load_config`] holds, as mathematics.
pub open spec fn configured(config: Result<GameConfig, ConfigurationError>) -> Result<
    GameConfigView,
    ConfigurationError,
> {
    match config {
        Ok(settings) => Ok(settings@),
        Err(error) => Err(error),
    }
}

/// The text of a setting, if there is one.
pub open spec fn text_view(text: Option<String>) -> Option<Seq<char>> {
    match text {
        Some(text) => Some(text@),
        None => None,
    }
}

impl GameConfig {
    /// Puts five settings together, where all of them are there and the
    /// scroll speed is not zero.
    pub fn from_settings(
        height: Option<i64>,
        width: Option<i64>,
        offset: Option<i64>,
        filename: Option<String>,
        scroll_speed: Option<i64>,
    ) -> (config: Result<GameConfig, ConfigurationError>)
        ensures
            configured(config) == settings_of(
                height,
                width,
                offset,
                text_view(filename),
                scroll_speed,
            ),
    {
        let height = match height {
            Some(height) => height,
            None => {
                return Err(ConfigurationError::InvalidSetting(Setting::WindowHeight));
            },
        };
        let width = match width {
            Some(width) => width,
            None => {
                return Err(ConfigurationError::InvalidSetting(Setting::WindowWidth));
            },
        };
        let offset = match offset {
            Some(offset) => offset,
            None => {
                return Err(ConfigurationError::InvalidSetting(Setting::Offset));
            },
        };
        let filename = match filename {
            Some(filename) => filename,
            None => {
                return Err(ConfigurationError::InvalidSetting(Setting::Filename));
            },
        };
        let scroll_speed = match scroll_speed {
            Some(scroll_speed) => scroll_speed,
            None => {
                return Err(ConfigurationError::InvalidSetting(Setting::ScrollSpeed));
            },
        };
        if scroll_speed == 0 {
            return Err(ConfigurationError::ZeroScrollSpeed);
        }
        Ok(GameConfig { height, width, offset, filename, scroll_speed })
    }
}

/// Reads the settings of a game from the text of a YAML document.
pub fn load_config(text: &str) -> (config: Result<GameConfig, ConfigurationError>)
    ensures
        configured(config) == config_of(text@),
        text@.len() > MAX_CONFIG_CHARS <==> config == Err::<GameConfig, ConfigurationError>(
            ConfigurationError::DocumentTooLong,
        ),
{
    if text.unicode_len() > MAX_CONFIG_CHARS {
        return Err(ConfigurationError::DocumentTooLong);
    }
    let documents = match load_documents(text) {
        Ok(documents) => documents,
        Err(_) => {
            return Err(ConfigurationError::InvalidDocument);
        },
    };
    if documents.len() == 0 {
        return Err(ConfigurationError::MissingDocument);
    }
    let document = &documents[0];
    let height = element(entry(document, WINDOW_KEY), 0).as_i64();
    let width = element(entry(document, WINDOW_KEY), 1).as_i64();
    let offset = element(entry(document, OFFSET_KEY), 0).as_i64();
    let filename = match element(entry(document, FILENAME_KEY), 0).as_str() {
        Some(text) => Some(text.to_owned()),
        None => None,
    };
    let scroll_speed = element(entry(document, SCROLL_KEY), 0).as_i64();
    GameConfig::from_settings(height, width, offset, filename, scroll_speed)
}

} // verus!

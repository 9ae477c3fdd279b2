//! How a tag treats fields that may hold several values.

use vstd::prelude::*;

verus! {

/// Settings that travel with a tag and with the neutral record made from it.
#[derive(Clone, Copy, Debug)]
pub struct Config {
    /// The text that stands between two artists where several share one
    /// field.
    pub sep_artist: &'static str,
    /// Whether a single artist text is cut at the separator when the artists
    /// are asked for one by one.
    pub parse_multiple_artists: bool,
}

impl Default for Config {
    /// Artists are separated by `;` and are taken apart on reading.
    fn default() -> (config: Self)
        ensures
            config.sep_artist@ == seq![';'],
            config.parse_multiple_artists,
    {
        proof {
            reveal_strlit(";");
        }
        let config = Config { sep_artist: ";", parse_multiple_artists: true };
        assert(config.sep_artist@ =~= seq![';']);
        config
    }
}

impl Config {
    /// The same settings with another separator.
    pub fn sep_artist(self, sep: &'static str) -> (config: Self)
        ensures
            config == (Config { sep_artist: sep, ..self }),
    {
        Config { sep_artist: sep, parse_multiple_artists: self.parse_multiple_artists }
    }

    /// The same settings with splitting of artists switched on or off.
    pub fn parse_multiple_artists(self, parse: bool) -> (config: Self)
        ensures
            config == (Config { parse_multiple_artists: parse, ..self }),
    {
        Config { sep_artist: self.sep_artist, parse_multiple_artists: parse }
    }
}

} // verus!

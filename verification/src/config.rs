//! The agent's settings.

use vstd::prelude::*;
use vstd::string::*;

use crate::text::{decimal, lemma_parse_decimal_roundtrip, parse_decimal_usize, parse_usize_spec, push_decimal};

verus! {

/// Capacity of the channel to the local event consumer when none is set.
pub const DEFAULT_CHANNEL_BUFFER_SIZE: usize = 100;

/// The agent's settings.
pub struct Config {
    /// Base URL of the backend that events go to.
    pub backend_url: String,
    /// Capacity of the channel to the local event consumer.
    pub channel_buffer_size: usize,
    /// Logging filter.
    pub log_level: String,
}

/// The channel capacity that the setting `raw` gives: its value when it is a
/// decimal `usize`, else the default.
pub open spec fn channel_buffer_size_of(raw: Option<Seq<char>>) -> usize {
    match raw {
        Some(s) => match parse_usize_spec(s) {
            Some(n) => n,
            None => DEFAULT_CHANNEL_BUFFER_SIZE,
        },
        None => DEFAULT_CHANNEL_BUFFER_SIZE,
    }
}

/// The text of an optional setting, as a sequence of characters.
pub open spec fn setting_chars(s: Option<String>) -> Option<Seq<char>> {
    match s {
        Some(v) => Some(v@),
        None => None,
    }
}

/// A channel capacity written out in decimal, as the configuration is
/// logged, is read back as the same capacity.
pub proof fn lemma_channel_buffer_size_roundtrip(n: usize)
    ensures
        channel_buffer_size_of(Some(decimal(n as nat))) == n,
{
    lemma_parse_decimal_roundtrip(n);
}

impl Config {
    /// The settings from the raw values of `BACKEND_URL`, `CHANNEL_BUFFER_SIZE`
    /// and `RUST_LOG` (`None` where unset): the backend URL defaults to
    /// `http://localhost:8000`, the channel capacity to 100 (also when the
    /// value is not a decimal `usize`), the log level to `info`.
    pub fn from_values(
        backend_url: Option<String>,
        channel_buffer_size: Option<String>,
        log_level: Option<String>,
    ) -> (c: Config)
        ensures
            c.backend_url@ == (match backend_url {
                Some(u) => u@,
                None => "http://localhost:8000"@,
            }),
            c.channel_buffer_size == channel_buffer_size_of(setting_chars(channel_buffer_size)),
            c.log_level@ == (match log_level {
                Some(l) => l@,
                None => "info"@,
            }),
    {
        let backend_url = match backend_url {
            Some(u) => u,
            None => String::from_str("http://localhost:8000"),
        };
        let size = match channel_buffer_size {
            Some(s) => match parse_decimal_usize(s.as_str()) {
                Some(n) => n,
                None => DEFAULT_CHANNEL_BUFFER_SIZE,
            },
            None => DEFAULT_CHANNEL_BUFFER_SIZE,
        };
        let log_level = match log_level {
            Some(l) => l,
            None => String::from_str("info"),
        };
        Config { backend_url, channel_buffer_size: size, log_level }
    }

    /// The lines the configuration is logged as, in order.
    pub fn log(&self) -> (lines: Vec<String>)
        ensures
            lines@.len() == 4,
            lines@[0]@ == "Configuration:"@,
            lines@[1]@ == "  Backend URL: "@ + self.backend_url@,
            lines@[2]@ == "  Channel Buffer Size: "@ + decimal(self.channel_buffer_size as nat),
            lines@[3]@ == "  Log Level: "@ + self.log_level@,
    {
        let mut lines: Vec<String> = Vec::new();
        lines.push(String::from_str("Configuration:"));
        let mut url = String::from_str("  Backend URL: ");
        url.append(self.backend_url.as_str());
        lines.push(url);
        let mut size = String::from_str("  Channel Buffer Size: ");
        push_decimal(&mut size, self.channel_buffer_size as u64);
        lines.push(size);
        let mut level = String::from_str("  Log Level: ");
        level.append(self.log_level.as_str());
        lines.push(level);
        lines
    }
}

} // verus!

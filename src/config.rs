//! Configuration: global auction defaults and bot settings, with overrides
//! per channel, resolved when an auction starts.

use vstd::prelude::*;
use crate::text::{ascii_lower_seq, make_ascii_lowercase};

verus! {

#[verifier::external_type_specification]
#[verifier::external_body]
pub struct ExPathBuf(std::path::PathBuf);

#[verifier::external_type_specification]
#[verifier::external_body]
pub struct ExIoError(std::io::Error);

#[verifier::external_type_specification]
#[verifier::external_body]
pub struct ExTomlError(toml::de::Error);

/// Login data for the chat service.
#[derive(Clone)]
pub struct ConfigAuth {
    pub username: String,
    pub oauth: String,
}

/// Default settings of an auction.
#[derive(Clone)]
pub struct ConfigAuction {
    /// Seconds.
    pub duration: u64,
    /// Seconds.
    pub helmet: u64,
    pub max_raise: usize,
    pub min_bid: usize,
    pub summary: bool,
    pub verb: String,
}

/// Settings of the bot itself.
pub struct ConfigBot {
    pub admins: Vec<String>,
    pub ignore: Vec<String>,
    pub parse_commands: bool,
    pub prefix: String,
    /// Seconds to wait before reconnecting.
    pub reconnect: u64,
    pub file_csv: Option<std::path::PathBuf>,
}

/// Settings of one channel; each one set overrides the default.
#[derive(Clone)]
pub struct ConfigChannel {
    pub admins: Option<Vec<String>>,
    pub ignore: Option<Vec<String>>,
    pub duration: Option<u64>,
    pub helmet: Option<u64>,
    pub max_raise: Option<usize>,
    pub min_bid: Option<usize>,
    pub summary: Option<bool>,
    pub verb: Option<String>,
}

/// The whole configuration.
pub struct Config {
    pub auth: ConfigAuth,
    pub auction: ConfigAuction,
    pub bot: ConfigBot,
    /// Channel names and their settings.
    pub channels: Option<Vec<(String, ConfigChannel)>>,
}

/// A configuration together with the file it was read from.
pub struct ConfigFile {
    pub data: Config,
    pub path: std::path::PathBuf,
}

/// The outcome of reading a configuration file.
pub enum ConfigOpen {
    FileInaccessible(std::io::Error),
    FileInvalid(toml::de::Error),
    FileValid(Config),
}

/// Where the configuration file is, and what reading it gave.
pub enum ConfigFind {
    DoesNotExist(std::path::PathBuf),
    Exists(std::path::PathBuf, ConfigOpen),
    NoPath,
}

impl ConfigFind {
    /// The path of the file, where one was found.
    pub fn path(&self) -> (r: Option<&std::path::PathBuf>)
        ensures
            (r is None) == (*self is NoPath),
            *self matches ConfigFind::DoesNotExist(p) ==> r == Some(&p),
            *self matches ConfigFind::Exists(p, _) ==> r == Some(&p),
    {
        match self {
            ConfigFind::NoPath => None,
            ConfigFind::Exists(path, _) => Some(path),
            ConfigFind::DoesNotExist(path) => Some(path),
        }
    }
}

/// The settings of the first entry of `list` named `key`.
pub open spec fn lookup(list: Seq<(String, ConfigChannel)>, key: Seq<char>) -> Option<ConfigChannel>
    decreases list.len(),
{
    if list.len() == 0 {
        None
    } else if list[0].0@ == key {
        Some(list[0].1)
    } else {
        lookup(list.drop_first(), key)
    }
}

/// Where no two entries of `list` share a name, the settings found for
/// the name of an entry are that entry's.
pub proof fn lemma_lookup_unique(list: Seq<(String, ConfigChannel)>, i: int)
    requires
        0 <= i < list.len(),
        forall|j: int, k: int| 0 <= j < k < list.len() ==> #[trigger] list[j].0@ != #[trigger] list[k].0@,
    ensures
        lookup(list, list[i].0@) == Some(list[i].1),
    decreases i,
{
    if i > 0 {
        let rest = list.drop_first();
        assert(list[0].0@ != list[i].0@);
        assert(rest[i - 1] == list[i]);
        assert forall|j: int, k: int| 0 <= j < k < rest.len() implies #[trigger] rest[j].0@ != #[trigger] rest[k].0@ by {
            assert(rest[j] == list[j + 1] && rest[k] == list[k + 1]);
        }
        lemma_lookup_unique(rest, i - 1);
    }
}

/// Whether one of `list` is `name`.
pub open spec fn listed(list: Seq<String>, name: Seq<char>) -> bool {
    exists|i: int| 0 <= i < list.len() && #[trigger] list[i]@ == name
}

/// Whether `name` is listed in the setting `list`, where it is set.
pub open spec fn listed_in(list: Option<Vec<String>>, name: Seq<char>) -> bool {
    match list {
        Some(l) => listed(l@, name),
        None => false,
    }
}

/// The texts of `list`, with ASCII letters in lower case.
pub open spec fn lowered(list: Seq<String>) -> Seq<Seq<char>> {
    list.map_values(|s: String| ascii_lower_seq(s@))
}

/// The texts of `list`.
pub open spec fn texts(list: Seq<String>) -> Seq<Seq<char>> {
    list.map_values(|s: String| s@)
}

/// Whether one of `list` is `name`.
fn contains(list: &Vec<String>, name: &str) -> (r: bool)
    ensures
        r == listed(list@, name@),
{
    let wanted = name.to_owned();
    let mut i: usize = 0;
    while i < list.len()
        invariant
            wanted@ == name@,
            i <= list@.len(),
            forall|k: int| 0 <= k < i ==> #[trigger] list@[k]@ != name@,
        decreases list@.len() - i,
    {
        if list[i] == wanted {
            return true;
        }
        i = i + 1;
    }
    false
}

/// Fold ASCII letters of every text of `list` to lower case.
fn lower(list: &mut Vec<String>)
    ensures
        texts(final(list)@) == lowered(old(list)@),
{
    let mut out: Vec<String> = Vec::new();
    let mut i: usize = 0;
    while i < list.len()
        invariant
            i <= list@.len(),
            texts(out@) == lowered(list@.subrange(0, i as int)),
        decreases list@.len() - i,
    {
        let mut s = list[i].clone();
        make_ascii_lowercase(&mut s);
        let ghost before = out@;
        out.push(s);
        proof {
            assert(texts(out@) =~= texts(before).push(s@));
            assert(lowered(list@.subrange(0, i + 1)) =~= lowered(list@.subrange(0, i as int)).push(
                ascii_lower_seq(list@[i as int]@),
            ));
        }
        i = i + 1;
    }
    proof {
        assert(list@.subrange(0, list@.len() as int) =~= list@);
    }
    *list = out;
}

impl Config {
    /// No two channels share a name.
    pub open spec fn wf(&self) -> bool {
        self.channels matches Some(list) ==> forall|i: int, j: int|
            0 <= i < j < list@.len() ==> #[trigger] list@[i].0@ != #[trigger] list@[j].0@
    }

    /// The settings of `channel`, if it has any.
    pub open spec fn channel_spec(&self, channel: Seq<char>) -> Option<ConfigChannel> {
        match self.channels {
            Some(list) => lookup(list@, channel),
            None => None,
        }
    }

    /// Seconds an auction in `channel` runs for.
    pub open spec fn duration_spec(&self, channel: Seq<char>) -> u64 {
        match self.channel_spec(channel) {
            Some(ConfigChannel { duration: Some(v), .. }) => v,
            _ => self.auction.duration,
        }
    }

    /// Seconds of the anti-snipe window in `channel`.
    pub open spec fn helmet_spec(&self, channel: Seq<char>) -> u64 {
        match self.channel_spec(channel) {
            Some(ConfigChannel { helmet: Some(v), .. }) => v,
            _ => self.auction.helmet,
        }
    }

    /// The largest raise allowed in `channel`.
    pub open spec fn max_raise_spec(&self, channel: Seq<char>) -> usize {
        match self.channel_spec(channel) {
            Some(ConfigChannel { max_raise: Some(v), .. }) => v,
            _ => self.auction.max_raise,
        }
    }

    /// The smallest bid allowed in `channel`.
    pub open spec fn min_bid_spec(&self, channel: Seq<char>) -> usize {
        match self.channel_spec(channel) {
            Some(ConfigChannel { min_bid: Some(v), .. }) => v,
            _ => self.auction.min_bid,
        }
    }

    /// What the winner in `channel` has to do with the amount.
    pub open spec fn verb_spec(&self, channel: Seq<char>) -> Seq<char> {
        match self.channel_spec(channel) {
            Some(ConfigChannel { verb: Some(v), .. }) => v@,
            _ => self.auction.verb@,
        }
    }

    /// Pair this configuration with the file it came from.
    pub fn with_path(self, path: std::path::PathBuf) -> (r: ConfigFile)
        ensures
            r.data == self,
            r.path == path,
    {
        ConfigFile { data: self, path }
    }

    /// The settings of `channel`, if it has any.
    fn config_channel(&self, channel: &str) -> (r: Option<&ConfigChannel>)
        ensures
            self.channel_spec(channel@) is None ==> r is None,
            self.channel_spec(channel@) matches Some(c) ==> r == Some(&c),
    {
        match &self.channels {
            None => None,
            Some(list) => {
                let wanted = channel.to_owned();
                let mut i: usize = 0;
                proof {
                    assert(list@.subrange(0, list@.len() as int) =~= list@);
                }
                while i < list.len()
                    invariant
                        wanted@ == channel@,
                        self.channels == Some(*list),
                        i <= list@.len(),
                        lookup(list@.subrange(i as int, list@.len() as int), channel@) == lookup(list@, channel@),
                    decreases list@.len() - i,
                {
                    proof {
                        assert(list@.subrange(i as int, list@.len() as int).drop_first()
                            =~= list@.subrange(i + 1, list@.len() as int));
                    }
                    proof {
                        assert(list@.subrange(i as int, list@.len() as int)[0] == list@[i as int]);
                    }
                    let entry = &list[i];
                    if entry.0 == wanted {
                        proof {
                            let sub = list@.subrange(i as int, list@.len() as int);
                            assert(sub[0].0@ == channel@);
                            assert(lookup(sub, channel@) == Some(sub[0].1));
                        }
                        return Some(&entry.1);
                    }
                    i = i + 1;
                }
                None
            },
        }
    }

    /// Seconds an auction in `channel` runs for.
    pub fn duration(&self, channel: &str) -> (r: u64)
        ensures
            r == self.duration_spec(channel@),
    {
        match self.config_channel(channel) {
            Some(ConfigChannel { duration: Some(value), .. }) => *value,
            _ => self.auction.duration,
        }
    }

    /// The CSV file that finished auctions are added to, if one is set.
    pub fn file_csv(&self) -> (r: Option<&std::path::PathBuf>)
        ensures
            self.bot.file_csv is None ==> r is None,
            self.bot.file_csv matches Some(p) ==> r == Some(&p),
    {
        match &self.bot.file_csv {
            Some(p) => Some(p),
            None => None,
        }
    }

    /// Seconds of the anti-snipe window in `channel`.
    pub fn helmet(&self, channel: &str) -> (r: u64)
        ensures
            r == self.helmet_spec(channel@),
    {
        match self.config_channel(channel) {
            Some(ConfigChannel { helmet: Some(value), .. }) => *value,
            _ => self.auction.helmet,
        }
    }

    /// The largest raise allowed in `channel`.
    pub fn max_raise(&self, channel: &str) -> (r: usize)
        ensures
            r == self.max_raise_spec(channel@),
    {
        match self.config_channel(channel) {
            Some(ConfigChannel { max_raise: Some(value), .. }) => *value,
            _ => self.auction.max_raise,
        }
    }

    /// The smallest bid allowed in `channel`.
    pub fn min_bid(&self, channel: &str) -> (r: usize)
        ensures
            r == self.min_bid_spec(channel@),
    {
        match self.config_channel(channel) {
            Some(ConfigChannel { min_bid: Some(value), .. }) => *value,
            _ => self.auction.min_bid,
        }
    }

    /// Whether commands are split with quoting rules (else at white space).
    pub fn parse_commands(&self) -> (r: bool)
        ensures
            r == self.bot.parse_commands,
    {
        self.bot.parse_commands
    }

    /// The text that starts every command.
    pub fn prefix(&self) -> (r: &String)
        ensures
            r == &self.bot.prefix,
    {
        &self.bot.prefix
    }

    /// Seconds to wait before reconnecting.
    pub fn reconnect(&self) -> (r: u64)
        ensures
            r == self.bot.reconnect,
    {
        self.bot.reconnect
    }

    /// Whether finished auctions in `channel` are saved.
    pub fn summary(&self, channel: &str) -> (r: bool)
        ensures
            r == match self.channel_spec(channel@) {
                Some(ConfigChannel { summary: Some(v), .. }) => v,
                _ => self.auction.summary,
            },
    {
        match self.config_channel(channel) {
            Some(ConfigChannel { summary: Some(value), .. }) => *value,
            _ => self.auction.summary,
        }
    }

    /// What the winner in `channel` has to do with the amount ("donate").
    pub fn verb(&self, channel: &str) -> (r: &str)
        ensures
            r@ == self.verb_spec(channel@),
    {
        match self.config_channel(channel) {
            Some(ConfigChannel { verb: Some(value), .. }) => value.as_str(),
            _ => self.auction.verb.as_str(),
        }
    }

    /// Whether `name` may run privileged commands in `channel`.
    pub fn is_admin(&self, name: &str, channel: &str) -> (r: bool)
        ensures
            r == (listed(self.bot.admins@, name@) || (self.channel_spec(channel@) matches Some(c)
                && listed_in(c.admins, name@))),
    {
        if self.is_globally_admin(name) {
            true
        } else {
            match self.config_channel(channel) {
                Some(ConfigChannel { admins: Some(list), .. }) => contains(list, name),
                _ => false,
            }
        }
    }

    /// Whether messages of `name` in `channel` are ignored.
    pub fn is_blacklisted(&self, name: &str, channel: &str) -> (r: bool)
        ensures
            r == (listed(self.bot.ignore@, name@) || (self.channel_spec(channel@) matches Some(c)
                && listed_in(c.ignore, name@))),
    {
        if self.is_globally_blacklisted(name) {
            true
        } else {
            match self.config_channel(channel) {
                Some(ConfigChannel { ignore: Some(list), .. }) => contains(list, name),
                _ => false,
            }
        }
    }

    /// Whether `name` may run privileged commands in every channel.
    pub fn is_globally_admin(&self, name: &str) -> (r: bool)
        ensures
            r == listed(self.bot.admins@, name@),
    {
        contains(&self.bot.admins, name)
    }

    /// Whether messages of `name` are ignored in every channel.
    pub fn is_globally_blacklisted(&self, name: &str) -> (r: bool)
        ensures
            r == listed(self.bot.ignore@, name@),
    {
        contains(&self.bot.ignore, name)
    }

    /// Fold the global admin and ignore lists to ASCII lower case.
    pub fn lower(&mut self)
        ensures
            texts(final(self).bot.admins@) == lowered(old(self).bot.admins@),
            texts(final(self).bot.ignore@) == lowered(old(self).bot.ignore@),
            final(self).auth == old(self).auth,
            final(self).auction == old(self).auction,
            final(self).channels == old(self).channels,
            final(self).bot.parse_commands == old(self).bot.parse_commands,
            final(self).bot.prefix == old(self).bot.prefix,
            final(self).bot.reconnect == old(self).bot.reconnect,
            final(self).bot.file_csv == old(self).bot.file_csv,
    {
        lower(&mut self.bot.admins);
        lower(&mut self.bot.ignore);
    }
}

impl ConfigFile {
    /// The configuration held.
    pub fn config(&self) -> (r: &Config)
        ensures
            r == &self.data,
    {
        &self.data
    }

    /// Take a freshly read configuration where the file held a valid one;
    /// else keep the current one and hand back what reading gave.
    pub fn reload(&mut self, opened: ConfigOpen) -> (r: Result<(), ConfigOpen>)
        ensures
            opened matches ConfigOpen::FileValid(c) ==> r is Ok && final(self).data == c
                && final(self).path == old(self).path,
            !(opened is FileValid) ==> r == Err::<(), ConfigOpen>(opened) && *final(self) == *old(self),
    {
        match opened {
            ConfigOpen::FileValid(new) => {
                self.data = new;
                Ok(())
            },
            err => Err(err),
        }
    }
}

} // verus!

//! What a configuration says: the limits and the allow-lists, with the
//! default for each limit that the configuration does not set.

use crate::campaign::{default_limits, TierLimits};
use crate::text::texts;
use config::{Config, Value};
use vstd::prelude::*;

verus! {

/// `config::Config`: a configuration as it was built, read by key.
#[verifier::external_type_specification]
#[verifier::external_body]
pub struct ExConfig(config::Config);

/// The unsigned numbers that a configuration holds: under each key whose
/// value can be read as an unsigned 64-bit number, that number.
pub uninterp spec fn config_numbers(config: Config) -> Map<Seq<char>, u64>;

/// The lists that a configuration holds: under each key whose value is an
/// array, the entries of the array as texts.
pub uninterp spec fn config_lists(config: Config) -> Map<Seq<char>, Seq<Seq<char>>>;

/// The number under a key, if there is one.
pub open spec fn number_at(config: Config, key: Seq<char>) -> Option<u64> {
    if config_numbers(config).contains_key(key) {
        Some(config_numbers(config)[key])
    } else {
        None
    }
}

/// The list under a key; the empty list where there is none.
pub open spec fn list_at(config: Config, key: Seq<char>) -> Seq<Seq<char>> {
    if config_lists(config).contains_key(key) {
        config_lists(config)[key]
    } else {
        Seq::empty()
    }
}

/// `Config::get::<u64>`: the value under the key, read as an unsigned
/// number; nothing where the key is absent or its value is no such number.
/// The contract only names what is read: it depends on the configuration
/// and the key alone.
#[verifier::external_body]
fn get_number(config: &Config, key: &str) -> (r: Option<u64>)
    ensures
        r == (if config_numbers(*config).contains_key(key@) {
            Some(config_numbers(*config)[key@])
        } else {
            None
        }),
{
    config.get::<u64>(key).ok()
}

/// `Config::get_array`, with each entry turned into a string by
/// `Value::into_string`: the array under the key, or the empty list where
/// the key is absent or its value is no array. An entry that cannot be
/// turned into a string comes out as the empty string. The contract only
/// names what is read: it depends on the configuration and the key alone.
#[verifier::external_body]
fn get_list(config: &Config, key: &str) -> (r: Vec<String>)
    ensures
        texts(r@) == (if config_lists(*config).contains_key(key@) {
            config_lists(*config)[key@]
        } else {
            Seq::empty()
        }),
{
    config.get_array(key).unwrap_or_default().into_iter().map(Value::into_string).map(
        Result::unwrap_or_default,
    ).collect()
}

/// The number of seconds under a key, or the default.
pub open spec fn seconds_or(config: Config, key: Seq<char>, default: u64) -> u64 {
    match number_at(config, key) {
        Some(v) => v,
        None => default,
    }
}

/// The count under a key, or the default where there is none or it does
/// not fit a `usize`.
pub open spec fn count_or(config: Config, key: Seq<char>, default: usize) -> usize {
    match number_at(config, key) {
        Some(v) => if v <= usize::MAX {
            v as usize
        } else {
            default
        },
        None => default,
    }
}

/// The limits that a configuration sets, each with its default.
pub open spec fn limits_of(config: Config) -> TierLimits {
    let d = default_limits();
    TierLimits {
        text_vip: count_or(config, "bot.text_spam.vip_limit"@, d.text_vip),
        text_trusted: count_or(config, "bot.text_spam.trusted_limit"@, d.text_trusted),
        sticker_vip: count_or(config, "bot.sticker_spam.vip_limit"@, d.sticker_vip),
        sticker_trusted: count_or(config, "bot.sticker_spam.trusted_limit"@, d.sticker_trusted),
        image_vip: count_or(config, "bot.image_spam.vip_limit"@, d.image_vip),
        image_trusted: count_or(config, "bot.image_spam.trusted_limit"@, d.image_trusted),
        image_max_size: count_or(config, "bot.image_spam.max_size"@, d.image_max_size),
        delay_limit: seconds_or(config, "bot.delay_spam.limit"@, d.delay_limit),
        typing_max: seconds_or(config, "bot.typing.max_duration"@, d.typing_max),
    }
}

/// The list of texts under a key.
pub fn list_setting(config: &Config, key: &str) -> (r: Vec<String>)
    ensures
        texts(r@) == list_at(*config, key@),
{
    get_list(config, key)
}

/// The number of seconds under a key, or the default.
pub fn seconds_setting(config: &Config, key: &str, default: u64) -> (r: u64)
    ensures
        r == seconds_or(*config, key@, default),
{
    match get_number(config, key) {
        Some(v) => v,
        None => default,
    }
}

/// The count under a key, or the default.
pub fn count_setting(config: &Config, key: &str, default: usize) -> (r: usize)
    ensures
        r == count_or(*config, key@, default),
{
    match get_number(config, key) {
        Some(v) => if v <= usize::MAX as u64 {
            v as usize
        } else {
            default
        },
        None => default,
    }
}

/// Reads the limits from a configuration.
pub fn limits_from(config: &Config) -> (l: TierLimits)
    ensures
        l == limits_of(*config),
{
    let d = TierLimits::defaults();
    TierLimits {
        text_vip: count_setting(config, "bot.text_spam.vip_limit", d.text_vip),
        text_trusted: count_setting(config, "bot.text_spam.trusted_limit", d.text_trusted),
        sticker_vip: count_setting(config, "bot.sticker_spam.vip_limit", d.sticker_vip),
        sticker_trusted: count_setting(config, "bot.sticker_spam.trusted_limit", d.sticker_trusted),
        image_vip: count_setting(config, "bot.image_spam.vip_limit", d.image_vip),
        image_trusted: count_setting(config, "bot.image_spam.trusted_limit", d.image_trusted),
        image_max_size: count_setting(config, "bot.image_spam.max_size", d.image_max_size),
        delay_limit: seconds_setting(config, "bot.delay_spam.limit", d.delay_limit),
        typing_max: seconds_setting(config, "bot.typing.max_duration", d.typing_max),
    }
}

/// A configuration that sets none of the nine limits leaves each of them
/// at its default.
pub proof fn lemma_unset_limits_are_defaults(config: Config)
    requires
        !config_numbers(config).contains_key("bot.text_spam.vip_limit"@),
        !config_numbers(config).contains_key("bot.text_spam.trusted_limit"@),
        !config_numbers(config).contains_key("bot.sticker_spam.vip_limit"@),
        !config_numbers(config).contains_key("bot.sticker_spam.trusted_limit"@),
        !config_numbers(config).contains_key("bot.image_spam.vip_limit"@),
        !config_numbers(config).contains_key("bot.image_spam.trusted_limit"@),
        !config_numbers(config).contains_key("bot.image_spam.max_size"@),
        !config_numbers(config).contains_key("bot.delay_spam.limit"@),
        !config_numbers(config).contains_key("bot.typing.max_duration"@),
    ensures
        limits_of(config) == default_limits(),
{
}

} // verus!

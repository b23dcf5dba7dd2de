//! Typed reads of the app's default `SharedPreferences`.
//!
//! A typed getter first asks `contains(key)` and reads the value only for a
//! stored key, so that an absent key reads as nothing rather than as the
//! getter's default.

use vstd::prelude::*;

verus! {

/// The app's default shared preferences.
#[derive(Copy, Clone, Debug)]
pub struct AndroidSharedPreferences;

impl AndroidSharedPreferences {
    /// A handle on the default preferences.
    pub fn new() -> (p: Self) {
        AndroidSharedPreferences
    }

    /// Whether `key` is stored, from what `contains(key)` answered (`None`
    /// when the query failed, which counts as absent).
    pub fn contains_key(&self, contains: Option<bool>) -> (r: bool)
        ensures
            r == (contains == Some(true)),
    {
        match contains {
            Some(b) => b,
            None => false,
        }
    }

    /// The integer stored under a key: `stored` (what `getLong` returned,
    /// `None` when it failed) when `contains` says the key is stored,
    /// nothing otherwise.
    pub fn get_int(&self, contains: Option<bool>, stored: Option<i64>) -> (r: Option<i64>)
        ensures
            r == if contains == Some(true) { stored } else { None::<i64> },
    {
        if self.contains_key(contains) {
            stored
        } else {
            None
        }
    }

    /// The flag stored under a key: `stored` (what `getBoolean` returned,
    /// `None` when it failed) when `contains` says the key is stored,
    /// nothing otherwise.
    pub fn get_bool(&self, contains: Option<bool>, stored: Option<bool>) -> (r: Option<bool>)
        ensures
            r == if contains == Some(true) { stored } else { None::<bool> },
    {
        if self.contains_key(contains) {
            stored
        } else {
            None
        }
    }
}

} // verus!

//! The externally managed settings blob that lists the platform
//! administrators.

use vstd::prelude::*;
use crate::strutil::{csv_contains, split_commas, str_eq};

verus! {

/// View of a [`SettingEntry`].
pub ghost struct SettingEntryV {
    pub key: Seq<char>,
    pub value: Seq<char>,
}

/// One key/value entry of a settings blob.
#[derive(Debug, PartialEq)]
pub struct SettingEntry {
    key: String,
    value: String,
}

impl View for SettingEntry {
    type V = SettingEntryV;

    closed spec fn view(&self) -> SettingEntryV {
        SettingEntryV { key: self.key@, value: self.value@ }
    }
}

impl DeepView for SettingEntry {
    type V = SettingEntryV;

    open spec fn deep_view(&self) -> SettingEntryV {
        self.view()
    }
}

impl Clone for SettingEntry {
    fn clone(&self) -> (res: Self)
        ensures
            res@ == self@,
    {
        SettingEntry { key: self.key.clone(), value: self.value.clone() }
    }
}

impl SettingEntry {
    pub fn new(key: String, value: String) -> (r: Self)
        ensures
            r@ == (SettingEntryV { key: key@, value: value@ }),
    {
        SettingEntry { key, value }
    }

    pub fn get_key(&self) -> (r: &str)
        ensures
            r@ == self@.key,
    {
        self.key.as_str()
    }

    pub fn get_value(&self) -> (r: &str)
        ensures
            r@ == self@.value,
    {
        self.value.as_str()
    }
}

/// View of a [`Setting`].
pub ghost struct SettingV {
    pub entries: Seq<SettingEntryV>,
}

/// A settings blob: a list of key/value entries kept by the outer
/// validator at a well-known address.
#[derive(Debug, PartialEq)]
pub struct Setting {
    entries: Vec<SettingEntry>,
}

impl View for Setting {
    type V = SettingV;

    closed spec fn view(&self) -> SettingV {
        SettingV { entries: self.entries.deep_view() }
    }
}

impl Clone for Setting {
    fn clone(&self) -> (res: Self)
        ensures
            res@ == self@,
    {
        let res = Setting { entries: self.entries.clone() };
        proof {
            assert forall|i: int| 0 <= i < self.entries@.len() implies res.entries.deep_view()[i]
                == self.entries.deep_view()[i] by {
                assert(cloned::<SettingEntry>(self.entries[i], res.entries[i]));
            }
            assert(res.entries.deep_view() =~= self.entries.deep_view());
        }
        res
    }
}

impl Setting {
    pub fn new(entries: Vec<SettingEntry>) -> (r: Self)
        ensures
            r@ == (SettingV { entries: entries.deep_view() }),
    {
        Setting { entries }
    }

    pub fn get_entries(&self) -> (r: &[SettingEntry])
        ensures
            r.deep_view() == self@.entries,
    {
        let r = self.entries.as_slice();
        proof {
            assert(r.deep_view() =~= self.entries.deep_view());
        }
        r
    }
}

/// Every entry of the setting stored under `key` lists `signer` in its
/// comma-separated value.  A setting without an entry under `key` allows
/// every signer.
pub open spec fn setting_allows(s: SettingV, key: Seq<char>, signer: Seq<char>) -> bool {
    forall|i: int| 0 <= i < s.entries.len() && (#[trigger] s.entries[i]).key == key
        ==> split_commas(s.entries[i].value).contains(signer)
}

/// True exactly when every entry of `setting` under `key` lists `signer`.
pub fn setting_allows_signer(setting: &Setting, key: &str, signer: &str) -> (r: bool)
    ensures
        r == setting_allows(setting@, key@, signer@),
{
    let entries = setting.get_entries();
    let n = entries.len();
    let mut i: usize = 0;
    while i < n
        invariant
            n == entries.deep_view().len(),
            entries.deep_view() == setting@.entries,
            i <= n,
            forall|j: int| 0 <= j < i && (#[trigger] setting@.entries[j]).key == key@
                ==> split_commas(setting@.entries[j].value).contains(signer@),
        decreases n - i,
    {
        let entry = &entries[i];
        proof {
            assert(entries.deep_view()[i as int] == entry@);
        }
        if str_eq(entry.get_key(), key) {
            if !csv_contains(entry.get_value(), signer) {
                return false;
            }
        }
        i += 1;
    }
    true
}

} // verus!

pub mod riven;
pub mod template;
pub mod yasuo;

use crate::config::hero::{HeroConfig, Key, ProfileView};
use vstd::prelude::*;

verus! {

/// What a registry means: its profiles, each under the name it was
/// registered with, in order of first registration.
pub type RegistryView = Seq<(Seq<char>, ProfileView)>;

/// The position of the profile registered as `name`, looking from `i` on.
pub open spec fn profile_index_from(ps: RegistryView, name: Seq<char>, i: int) -> Option<int>
    decreases ps.len() - i,
{
    if i < 0 || i >= ps.len() {
        None
    } else if ps[i].0 == name {
        Some(i)
    } else {
        profile_index_from(ps, name, i + 1)
    }
}

/// The names of the profiles, in order.
pub open spec fn profile_names(ps: RegistryView) -> Seq<Seq<char>> {
    ps.map_values(|p: (Seq<char>, ProfileView)| p.0)
}

/// What a list of strings holds.
pub open spec fn string_views(v: Seq<String>) -> Seq<Seq<char>> {
    v.map_values(|s: String| s@)
}

pub open spec fn profile_index(ps: RegistryView, name: Seq<char>) -> Option<int> {
    profile_index_from(ps, name, 0)
}

/// Registration replaces the profile of the same name where it stood, or
/// else appends.
pub open spec fn register(ps: RegistryView, name: Seq<char>, p: ProfileView) -> RegistryView {
    match profile_index(ps, name) {
        Some(i) => ps.update(i, (name, p)),
        None => ps.push((name, p)),
    }
}

/// The hotkey of `p` is the single key `key`.
pub open spec fn has_hotkey(p: ProfileView, key: Key) -> bool {
    match p.hotkey {
        Some(h) => h.len() == 1 && h[0] == key,
        None => false,
    }
}

/// The position of the first profile, from `i` on, whose hotkey is `key`.
pub open spec fn hotkey_index_from(ps: RegistryView, key: Key, i: int) -> Option<int>
    decreases ps.len() - i,
{
    if i < 0 || i >= ps.len() {
        None
    } else if has_hotkey(ps[i].1, key) {
        Some(i)
    } else {
        hotkey_index_from(ps, key, i + 1)
    }
}

pub open spec fn hotkey_index(ps: RegistryView, key: Key) -> Option<int> {
    hotkey_index_from(ps, key, 0)
}

/// Profiles by name, kept in the order in which they were first registered.
#[derive(Debug)]
pub struct HeroRegistry {
    heroes: Vec<(String, HeroConfig)>,
}

impl View for HeroRegistry {
    type V = RegistryView;

    closed spec fn view(&self) -> RegistryView {
        self.heroes@.map_values(|p: (String, HeroConfig)| (p.0@, p.1@))
    }
}

impl HeroRegistry {
    pub fn new() -> (r: HeroRegistry)
        ensures
            r@ == Seq::<(Seq<char>, ProfileView)>::empty(),
    {
        let r = HeroRegistry { heroes: Vec::new() };
        assert(r@ =~= Seq::<(Seq<char>, ProfileView)>::empty());
        r
    }

    fn index_of(&self, name: &String) -> (r: Option<usize>)
        ensures
            match r {
                Some(i) => i < self@.len() && profile_index(self@, name@) == Some(i as int),
                None => profile_index(self@, name@) == None::<int>,
            },
    {
        let mut i: usize = 0;
        while i < self.heroes.len()
            invariant
                i <= self.heroes@.len(),
                profile_index(self@, name@) == profile_index_from(self@, name@, i as int),
            decreases self.heroes.len() - i,
        {
            if self.heroes[i].0 == *name {
                assert(self@[i as int].0 == name@);
                return Some(i);
            }
            i = i + 1;
        }
        None
    }

    /// Registers `config` as `name`, replacing a profile of that name.
    pub fn register_hero(&mut self, name: &str, config: HeroConfig)
        ensures
            final(self)@ == register(old(self)@, name@, config@),
    {
        let key = name.to_owned();
        let ghost entry = (key@, config@);
        match self.index_of(&key) {
            Some(i) => {
                self.heroes.set(i, (key, config));
                assert(self@ =~= old(self)@.update(i as int, entry));
            },
            None => {
                self.heroes.push((key, config));
                assert(self@ =~= old(self)@.push(entry));
            },
        }
    }

    /// The profile registered as `name`.
    pub fn get_hero(&self, name: &str) -> (r: Option<&HeroConfig>)
        ensures
            match profile_index(self@, name@) {
                Some(i) => r is Some && r.unwrap()@ == self@[i].1,
                None => r is None,
            },
    {
        let key = name.to_owned();
        match self.index_of(&key) {
            Some(i) => Some(&self.heroes[i].1),
            None => None,
        }
    }

    /// The registered names, in registration order.
    pub fn get_hero_names(&self) -> (r: Vec<String>)
        ensures
            string_views(r@) == profile_names(self@),
    {
        let mut r: Vec<String> = Vec::new();
        let mut i: usize = 0;
        while i < self.heroes.len()
            invariant
                i <= self.heroes@.len(),
                string_views(r@) == profile_names(self@).subrange(0, i as int),
            decreases self.heroes.len() - i,
        {
            let name = self.heroes[i].0.clone();
            assert(name@ == profile_names(self@)[i as int]);
            let ghost before = r@;
            r.push(name);
            assert(string_views(r@) =~= string_views(before).push(name@));
            assert(string_views(r@) =~= profile_names(self@).subrange(0, i + 1));
            i = i + 1;
        }
        assert(profile_names(self@).subrange(0, i as int) =~= profile_names(self@));
        r
    }

    /// The name of the first profile, in registration order, whose hotkey is
    /// the single key `key`.
    pub fn hotkey_hero(&self, key: Key) -> (r: Option<String>)
        ensures
            match hotkey_index(self@, key) {
                Some(i) => r is Some && r.unwrap()@ == self@[i].0,
                None => r is None,
            },
    {
        let mut i: usize = 0;
        while i < self.heroes.len()
            invariant
                i <= self.heroes@.len(),
                hotkey_index(self@, key) == hotkey_index_from(self@, key, i as int),
            decreases self.heroes.len() - i,
        {
            let found = match &self.heroes[i].1.hotkey {
                Some(h) => h.len() == 1 && h[0] == key,
                None => false,
            };
            if found {
                assert(has_hotkey(self@[i as int].1, key));
                return Some(self.heroes[i].0.clone());
            }
            i = i + 1;
        }
        None
    }
}

} // verus!

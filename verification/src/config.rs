//! Application configuration data: window position, appearance,
//! notifications, behavior timeouts and the registered project list.
//! Reading and writing the configuration file is the embedding
//! application's task.

use vstd::prelude::*;
use vstd::string::*;
use crate::text::str_eq;

verus! {

pub fn default_x() -> (r: i32)
    ensures
        r == 100,
{
    100
}

pub fn default_y() -> (r: i32)
    ensures
        r == 100,
{
    100
}

pub fn default_anchor() -> (r: String)
    ensures
        r@ == "bottom-right"@,
{
    String::from_str("bottom-right")
}

pub fn default_size() -> (r: String)
    ensures
        r@ == "medium"@,
{
    String::from_str("medium")
}

pub fn default_theme() -> (r: String)
    ensures
        r@ == "auto"@,
{
    String::from_str("auto")
}

pub fn default_true() -> (r: bool)
    ensures
        r,
{
    true
}

pub fn default_bubble_duration() -> (r: u32)
    ensures
        r == 5,
{
    5
}

pub fn default_idle_timeout() -> (r: u32)
    ensures
        r == 30,
{
    30
}

pub fn default_sleepy_timeout() -> (r: u32)
    ensures
        r == 300,
{
    300
}

/// Where the window sits, relative to a screen anchor.
#[derive(Debug)]
pub struct PositionConfig {
    pub x: i32,
    pub y: i32,
    pub anchor: String,
}

impl Default for PositionConfig {
    fn default() -> (r: Self)
        ensures
            r.x == 100,
            r.y == 100,
            r.anchor@ == "bottom-right"@,
    {
        PositionConfig { x: default_x(), y: default_y(), anchor: default_anchor() }
    }
}

/// How the companion looks.
#[derive(Debug)]
pub struct AppearanceConfig {
    pub size: String,
    pub theme: String,
    pub background: Option<String>,
}

impl Default for AppearanceConfig {
    fn default() -> (r: Self)
        ensures
            r.size@ == "medium"@,
            r.theme@ == "auto"@,
            r.background is None,
    {
        AppearanceConfig { size: default_size(), theme: default_theme(), background: None }
    }
}

/// How the companion notifies.
#[derive(Debug)]
pub struct NotificationConfig {
    pub sound: bool,
    pub os_notifications: bool,
    pub bubble_duration: u32,
}

impl Default for NotificationConfig {
    fn default() -> (r: Self)
        ensures
            r.sound,
            r.os_notifications,
            r.bubble_duration == 5,
    {
        NotificationConfig {
            sound: default_true(),
            os_notifications: default_true(),
            bubble_duration: default_bubble_duration(),
        }
    }
}

/// Timeouts and start-up behavior.
#[derive(Debug)]
pub struct BehaviorConfig {
    pub auto_start: bool,
    pub idle_timeout: u32,
    pub sleepy_timeout: u32,
}

impl Default for BehaviorConfig {
    fn default() -> (r: Self)
        ensures
            !r.auto_start,
            r.idle_timeout == 30,
            r.sleepy_timeout == 300,
    {
        BehaviorConfig {
            auto_start: false,
            idle_timeout: default_idle_timeout(),
            sleepy_timeout: default_sleepy_timeout(),
        }
    }
}

/// The registered project paths, in registration order.
#[derive(Debug)]
pub struct ProjectsConfig {
    pub registered: Vec<String>,
}

impl Default for ProjectsConfig {
    fn default() -> (r: Self)
        ensures
            r.registered@.len() == 0,
    {
        ProjectsConfig { registered: Vec::new() }
    }
}

impl ProjectsConfig {
    /// Whether `path` is registered.
    pub fn is_registered(&self, path: &str) -> (r: bool)
        ensures
            r == self.registered.deep_view().contains(path@),
    {
        let n = self.registered.len();
        let mut i: usize = 0;
        while i < n
            invariant
                i <= n,
                n == self.registered@.len(),
                forall|j: int| 0 <= j < i ==> self.registered.deep_view()[j] != path@,
            decreases n - i,
        {
            if str_eq(self.registered[i].as_str(), path) {
                proof {
                    assert(self.registered.deep_view()[i as int] == path@);
                }
                return true;
            }
            i += 1;
        }
        proof {
            if self.registered.deep_view().contains(path@) {
                let j = choose|j: int|
                    0 <= j < self.registered.deep_view().len() && self.registered.deep_view()[j]
                        == path@;
            }
        }
        false
    }

    /// Registers `path` unless it already is; reports whether it was added.
    pub fn register(&mut self, path: &str) -> (added: bool)
        ensures
            added == !old(self).registered.deep_view().contains(path@),
            added ==> final(self).registered.deep_view() == old(
                self,
            ).registered.deep_view().push(path@),
            !added ==> final(self).registered == old(self).registered,
    {
        if self.is_registered(path) {
            false
        } else {
            let ghost prev = self.registered.deep_view();
            self.registered.push(path.to_owned());
            proof {
                assert(self.registered.deep_view() =~= prev.push(path@));
            }
            true
        }
    }

    /// Unregisters the first entry reading `path`, if one exists; reports
    /// whether one was removed.
    #[verifier::loop_isolation(false)]
    pub fn unregister(&mut self, path: &str) -> (removed: bool)
        ensures
            removed == old(self).registered.deep_view().contains(path@),
            !removed ==> final(self).registered == old(self).registered,
            removed ==> exists|i: int|
                0 <= i < old(self).registered.deep_view().len() && old(
                    self,
                ).registered.deep_view()[i] == path@ && final(self).registered.deep_view() == old(
                    self,
                ).registered.deep_view().remove(i),
    {
        let n = self.registered.len();
        let mut i: usize = 0;
        while i < n
            invariant
                i <= n,
                *self == *old(self),
                n == self.registered@.len(),
                forall|j: int| 0 <= j < i ==> self.registered.deep_view()[j] != path@,
            decreases n - i,
        {
            if str_eq(self.registered[i].as_str(), path) {
                let ghost prev = self.registered.deep_view();
                let _ = self.registered.remove(i);
                proof {
                    assert(prev[i as int] == path@);
                    assert(prev.contains(path@));
                    assert(self.registered.deep_view() =~= prev.remove(i as int));
                    assert(0 <= i < prev.len() && prev[i as int] == path@
                        && self.registered.deep_view() == prev.remove(i as int));
                }
                return true;
            }
            i += 1;
        }
        proof {
            if self.registered.deep_view().contains(path@) {
                let j = choose|j: int|
                    0 <= j < self.registered.deep_view().len() && self.registered.deep_view()[j]
                        == path@;
            }
        }
        false
    }
}

/// The whole application configuration.
#[derive(Debug)]
pub struct Config {
    pub position: PositionConfig,
    pub appearance: AppearanceConfig,
    pub notifications: NotificationConfig,
    pub behavior: BehaviorConfig,
    pub projects: ProjectsConfig,
}

impl Default for Config {
    fn default() -> (r: Self)
        ensures
            r.position.x == 100,
            r.position.y == 100,
            r.position.anchor@ == "bottom-right"@,
            r.appearance.size@ == "medium"@,
            r.appearance.theme@ == "auto"@,
            r.appearance.background is None,
            r.notifications.sound,
            r.notifications.os_notifications,
            r.notifications.bubble_duration == 5,
            !r.behavior.auto_start,
            r.behavior.idle_timeout == 30,
            r.behavior.sleepy_timeout == 300,
            r.projects.registered@.len() == 0,
    {
        Config {
            position: PositionConfig::default(),
            appearance: AppearanceConfig::default(),
            notifications: NotificationConfig::default(),
            behavior: BehaviorConfig::default(),
            projects: ProjectsConfig::default(),
        }
    }
}

} // verus!

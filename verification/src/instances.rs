//! Game instances: their configuration and the in-memory registry.

use vstd::prelude::*;
use crate::keyed::{Keyed, has_key, without_key, first_with_key, remove_by_key, replace_by_key};
use crate::paths::{join, join_path};

verus! {

/// The configuration of one game instance.
pub struct InstanceConfig {
    pub id: String,
    pub name: String,
    pub game_version: String,
    pub loader: String,
    pub loader_version: Option<String>,
    pub memory: u32,
    pub java: Option<String>,
    pub game_dir: Option<String>,
    pub resolution_width: Option<u32>,
    pub resolution_height: Option<u32>,
    pub account_uuid: Option<String>,
    pub minecraft_dir: Option<String>,
    pub custom_jvm_args: Vec<String>,
}

/// Two configurations that agree on every field (the argument lists by
/// their contents).
pub open spec fn same_instance(a: InstanceConfig, b: InstanceConfig) -> bool {
    &&& a.id == b.id
    &&& a.name == b.name
    &&& a.game_version == b.game_version
    &&& a.loader == b.loader
    &&& a.loader_version == b.loader_version
    &&& a.memory == b.memory
    &&& a.java == b.java
    &&& a.game_dir == b.game_dir
    &&& a.resolution_width == b.resolution_width
    &&& a.resolution_height == b.resolution_height
    &&& a.account_uuid == b.account_uuid
    &&& a.minecraft_dir == b.minecraft_dir
    &&& a.custom_jvm_args@ == b.custom_jvm_args@
}

impl Clone for InstanceConfig {
    fn clone(&self) -> (r: Self)
        ensures
            same_instance(r, *self),
    {
        let args = self.custom_jvm_args.clone();
        assert(args@ =~= self.custom_jvm_args@);
        InstanceConfig {
            id: self.id.clone(),
            name: self.name.clone(),
            game_version: self.game_version.clone(),
            loader: self.loader.clone(),
            loader_version: self.loader_version.clone(),
            memory: self.memory,
            java: self.java.clone(),
            game_dir: self.game_dir.clone(),
            resolution_width: self.resolution_width,
            resolution_height: self.resolution_height,
            account_uuid: self.account_uuid.clone(),
            minecraft_dir: self.minecraft_dir.clone(),
            custom_jvm_args: args,
        }
    }
}

impl Default for InstanceConfig {
    /// A vanilla 1.21.1 instance with 4 GiB of memory and a fresh id.
    fn default() -> (r: Self)
        ensures
            r.id@.len() == 36,
            r.name@ == "New Instance"@,
            r.game_version@ == "1.21.1"@,
            r.loader@ == "vanilla"@,
            r.loader_version is None,
            r.memory == 4096,
            r.java is None,
            r.game_dir is None,
            r.resolution_width is None,
            r.resolution_height is None,
            r.account_uuid is None,
            r.minecraft_dir is None,
            r.custom_jvm_args@.len() == 0,
    {
        InstanceConfig {
            id: crate::ids::new_uuid_v4(),
            name: "New Instance".to_owned(),
            game_version: "1.21.1".to_owned(),
            loader: "vanilla".to_owned(),
            loader_version: None,
            memory: 4096,
            java: None,
            game_dir: None,
            resolution_width: None,
            resolution_height: None,
            account_uuid: None,
            minecraft_dir: None,
            custom_jvm_args: Vec::new(),
        }
    }
}

impl Keyed for InstanceConfig {
    open spec fn key(&self) -> Seq<char> {
        self.id@
    }

    fn key_str(&self) -> (r: &str) {
        self.id.as_str()
    }
}

impl InstanceConfig {
    /// The instance's own directory under `base`.
    pub fn instance_dir(&self, base: &str) -> (r: String)
        ensures
            r@ == join(base@, self.id@),
    {
        join_path(base, self.id.as_str())
    }
}

/// The in-memory list of instances.
pub struct InstanceManager {
    pub instances: Vec<InstanceConfig>,
}

impl Default for InstanceManager {
    fn default() -> (r: Self)
        ensures
            r.instances@.len() == 0,
    {
        InstanceManager { instances: Vec::new() }
    }
}

impl InstanceManager {
    pub fn new() -> (r: Self)
        ensures
            r.instances@.len() == 0,
    {
        InstanceManager { instances: Vec::new() }
    }

    pub fn list(&self) -> (r: &[InstanceConfig])
        ensures
            r@ == self.instances@,
    {
        self.instances.as_slice()
    }

    pub fn add(&mut self, instance: InstanceConfig)
        ensures
            final(self).instances@ == old(self).instances@.push(instance),
    {
        self.instances.push(instance);
    }

    /// Removes every instance with this id; true when one was removed.
    pub fn remove(&mut self, id: &str) -> (r: bool)
        ensures
            final(self).instances@ == without_key(old(self).instances@, id@),
            r == has_key(old(self).instances@, id@),
    {
        remove_by_key(&mut self.instances, id)
    }

    /// Replaces the first instance with the same id; true when one did.
    pub fn update(&mut self, instance: InstanceConfig) -> (r: bool)
        ensures
            r == has_key(old(self).instances@, instance.id@),
            r ==> final(self).instances@ == old(self).instances@.update(
                first_with_key(old(self).instances@, instance.id@),
                instance,
            ),
            !r ==> final(self).instances@ == old(self).instances@,
    {
        replace_by_key(&mut self.instances, instance)
    }
}

} // verus!

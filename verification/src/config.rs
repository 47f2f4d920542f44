//! The persisted launcher configuration. The operations here change the
//! configuration in memory; writing it to disk is the caller's part.

use vstd::prelude::*;
use crate::auth::Account;
use crate::errors::LauncherError;
use crate::keyed::{Keyed, has_key, without_key, first_with_key, position_by_key, remove_by_key, replace_by_key};
use crate::minecraft::optimization::OptimizationProfile;

verus! {

/// User-wide launcher settings.
pub struct Settings {
    pub default_memory: u32,
    pub java_path: Option<String>,
    pub theme: String,
    pub language: String,
    pub optimization_profile: OptimizationProfile,
    pub custom_jvm_args: Vec<String>,
}

impl Default for Settings {
    fn default() -> (r: Self)
        ensures
            r.default_memory == 4096,
            r.java_path is None,
            r.theme@ == "tokyo-night"@,
            r.language@ == "en"@,
            r.optimization_profile == OptimizationProfile::Mid,
            r.custom_jvm_args@.len() == 0,
    {
        Settings {
            default_memory: 4096,
            java_path: None,
            theme: "tokyo-night".to_owned(),
            language: "en".to_owned(),
            optimization_profile: OptimizationProfile::Mid,
            custom_jvm_args: Vec::new(),
        }
    }
}

impl Clone for Settings {
    fn clone(&self) -> (r: Self)
        ensures
            r.default_memory == self.default_memory,
            r.java_path == self.java_path,
            r.theme == self.theme,
            r.language == self.language,
            r.optimization_profile == self.optimization_profile,
            r.custom_jvm_args@ == self.custom_jvm_args@,
    {
        let args = self.custom_jvm_args.clone();
        assert(args@ =~= self.custom_jvm_args@);
        Settings {
            default_memory: self.default_memory,
            java_path: self.java_path.clone(),
            theme: self.theme.clone(),
            language: self.language.clone(),
            optimization_profile: self.optimization_profile,
            custom_jvm_args: args,
        }
    }
}

/// The persisted form of an instance's configuration.
pub struct InstanceConfig {
    pub id: String,
    pub name: String,
    pub game_version: String,
    pub loader: String,
    pub loader_version: Option<String>,
    pub memory: u32,
    pub java: Option<String>,
    pub game_dir: Option<String>,
    pub resolution_width: Option<u32>,
    pub resolution_height: Option<u32>,
    pub account_uuid: Option<String>,
    pub minecraft_dir: Option<String>,
    pub custom_jvm_args: Vec<String>,
}

impl Keyed for InstanceConfig {
    open spec fn key(&self) -> Seq<char> {
        self.id@
    }

    fn key_str(&self) -> (r: &str) {
        self.id.as_str()
    }
}

impl Default for InstanceConfig {
    /// A vanilla 1.21.1 instance with 4 GiB of memory and a fresh id.
    fn default() -> (r: Self)
        ensures
            r.id@.len() == 36,
            r.name@ == "New Instance"@,
            r.game_version@ == "1.21.1"@,
            r.loader@ == "vanilla"@,
            r.loader_version is None,
            r.memory == 4096,
            r.java is None,
            r.game_dir is None,
            r.resolution_width is None,
            r.resolution_height is None,
            r.account_uuid is None,
            r.minecraft_dir is None,
            r.custom_jvm_args@.len() == 0,
    {
        InstanceConfig {
            id: crate::ids::new_uuid_v4(),
            name: "New Instance".to_owned(),
            game_version: "1.21.1".to_owned(),
            loader: "vanilla".to_owned(),
            loader_version: None,
            memory: 4096,
            java: None,
            game_dir: None,
            resolution_width: None,
            resolution_height: None,
            account_uuid: None,
            minecraft_dir: None,
            custom_jvm_args: Vec::new(),
        }
    }
}

/// The launcher window's geometry.
#[derive(Clone, Copy, PartialEq, Eq, Structural)]
pub struct WindowConfig {
    pub width: u32,
    pub height: u32,
    pub maximized: bool,
}

impl Default for WindowConfig {
    fn default() -> (r: Self)
        ensures
            r == (WindowConfig { width: 1100, height: 750, maximized: false }),
    {
        WindowConfig { width: 1100, height: 750, maximized: false }
    }
}

/// Everything the launcher persists.
pub struct Config {
    pub settings: Settings,
    pub instances: Vec<InstanceConfig>,
    pub accounts: Vec<Account>,
    pub window: WindowConfig,
    pub default_account: Option<String>,
}

impl Default for Config {
    fn default() -> (r: Self)
        ensures
            r.settings.default_memory == 4096,
            r.settings.theme@ == "tokyo-night"@,
            r.settings.optimization_profile == OptimizationProfile::Mid,
            r.instances@.len() == 0,
            r.accounts@.len() == 0,
            r.window == (WindowConfig { width: 1100, height: 750, maximized: false }),
            r.default_account is None,
    {
        Config {
            settings: Settings::default(),
            instances: Vec::new(),
            accounts: Vec::new(),
            window: WindowConfig::default(),
            default_account: None,
        }
    }
}

impl Config {
    /// Adds an instance; refused when one with the same id exists.
    pub fn add_instance(&mut self, instance: InstanceConfig) -> (r: Result<(), LauncherError>)
        ensures
            has_key(old(self).instances@, instance.id@) ==> (r matches Err(
                LauncherError::Instance(m),
            ) && m@ == "Instance already exists"@ && final(self).instances@ == old(
                self,
            ).instances@),
            !has_key(old(self).instances@, instance.id@) ==> r is Ok && final(self).instances@
                == old(self).instances@.push(instance),
            final(self).accounts == old(self).accounts,
            final(self).default_account == old(self).default_account,
            final(self).settings == old(self).settings,
            final(self).window == old(self).window,
    {
        if position_by_key(self.instances.as_slice(), instance.id.as_str()).is_some() {
            return Err(LauncherError::Instance("Instance already exists".to_owned()));
        }
        self.instances.push(instance);
        Ok(())
    }

    /// Removes every instance with this id; refused when there is none.
    pub fn remove_instance(&mut self, id: &str) -> (r: Result<(), LauncherError>)
        ensures
            final(self).instances@ == without_key(old(self).instances@, id@),
            has_key(old(self).instances@, id@) ==> r is Ok,
            !has_key(old(self).instances@, id@) ==> (r matches Err(LauncherError::Instance(m))
                && m@ == "Instance not found"@),
            final(self).accounts == old(self).accounts,
            final(self).default_account == old(self).default_account,
            final(self).settings == old(self).settings,
            final(self).window == old(self).window,
    {
        if remove_by_key(&mut self.instances, id) {
            Ok(())
        } else {
            Err(LauncherError::Instance("Instance not found".to_owned()))
        }
    }

    /// Replaces the first instance with the same id; refused when there is
    /// none.
    pub fn update_instance(&mut self, instance: InstanceConfig) -> (r: Result<(), LauncherError>)
        ensures
            has_key(old(self).instances@, instance.id@) ==> r is Ok && final(self).instances@
                == old(self).instances@.update(
                first_with_key(old(self).instances@, instance.id@),
                instance,
            ),
            !has_key(old(self).instances@, instance.id@) ==> (r matches Err(
                LauncherError::Instance(m),
            ) && m@ == "Instance not found"@ && final(self).instances@ == old(self).instances@),
            final(self).accounts == old(self).accounts,
            final(self).default_account == old(self).default_account,
            final(self).settings == old(self).settings,
            final(self).window == old(self).window,
    {
        if replace_by_key(&mut self.instances, instance) {
            Ok(())
        } else {
            Err(LauncherError::Instance("Instance not found".to_owned()))
        }
    }

    /// Adds an account; refused when one with the same uuid exists.
    pub fn add_account(&mut self, account: Account) -> (r: Result<(), LauncherError>)
        ensures
            has_key(old(self).accounts@, account.uuid@) ==> (r matches Err(
                LauncherError::Config(m),
            ) && m@ == "Account already exists"@ && final(self).accounts@ == old(
                self,
            ).accounts@),
            !has_key(old(self).accounts@, account.uuid@) ==> r is Ok && final(self).accounts@
                == old(self).accounts@.push(account),
            final(self).instances == old(self).instances,
            final(self).default_account == old(self).default_account,
            final(self).settings == old(self).settings,
            final(self).window == old(self).window,
            r is Err ==> *final(self) == *old(self),
    {
        if position_by_key(self.accounts.as_slice(), account.uuid.as_str()).is_some() {
            return Err(LauncherError::Config("Account already exists".to_owned()));
        }
        self.accounts.push(account);
        Ok(())
    }

    /// Removes every account with this uuid; refused when there is none.
    pub fn remove_account(&mut self, uuid: &str) -> (r: Result<(), LauncherError>)
        ensures
            final(self).accounts@ == without_key(old(self).accounts@, uuid@),
            has_key(old(self).accounts@, uuid@) ==> r is Ok,
            !has_key(old(self).accounts@, uuid@) ==> (r matches Err(LauncherError::Config(m))
                && m@ == "Account not found"@),
            final(self).instances == old(self).instances,
            final(self).default_account == old(self).default_account,
            final(self).settings == old(self).settings,
            final(self).window == old(self).window,
    {
        if remove_by_key(&mut self.accounts, uuid) {
            Ok(())
        } else {
            Err(LauncherError::Config("Account not found".to_owned()))
        }
    }
}

/// Field-for-field equality of an instance and its persisted form.
pub open spec fn mirrors(a: crate::instances::InstanceConfig, b: InstanceConfig) -> bool {
    &&& a.id == b.id
    &&& a.name == b.name
    &&& a.game_version == b.game_version
    &&& a.loader == b.loader
    &&& a.loader_version == b.loader_version
    &&& a.memory == b.memory
    &&& a.java == b.java
    &&& a.game_dir == b.game_dir
    &&& a.resolution_width == b.resolution_width
    &&& a.resolution_height == b.resolution_height
    &&& a.account_uuid == b.account_uuid
    &&& a.minecraft_dir == b.minecraft_dir
    &&& a.custom_jvm_args@ == b.custom_jvm_args@
}

/// The persisted form of an instance.
pub fn to_config_instance(i: &crate::instances::InstanceConfig) -> (r: InstanceConfig)
    ensures
        mirrors(*i, r),
{
    let args = i.custom_jvm_args.clone();
    assert(args@ =~= i.custom_jvm_args@);
    InstanceConfig {
        id: i.id.clone(),
        name: i.name.clone(),
        game_version: i.game_version.clone(),
        loader: i.loader.clone(),
        loader_version: i.loader_version.clone(),
        memory: i.memory,
        java: i.java.clone(),
        game_dir: i.game_dir.clone(),
        resolution_width: i.resolution_width,
        resolution_height: i.resolution_height,
        account_uuid: i.account_uuid.clone(),
        minecraft_dir: i.minecraft_dir.clone(),
        custom_jvm_args: args,
    }
}

/// The instance that a persisted configuration describes.
pub fn from_config_instance(i: &InstanceConfig) -> (r: crate::instances::InstanceConfig)
    ensures
        mirrors(r, *i),
{
    let args = i.custom_jvm_args.clone();
    assert(args@ =~= i.custom_jvm_args@);
    crate::instances::InstanceConfig {
        id: i.id.clone(),
        name: i.name.clone(),
        game_version: i.game_version.clone(),
        loader: i.loader.clone(),
        loader_version: i.loader_version.clone(),
        memory: i.memory,
        java: i.java.clone(),
        game_dir: i.game_dir.clone(),
        resolution_width: i.resolution_width,
        resolution_height: i.resolution_height,
        account_uuid: i.account_uuid.clone(),
        minecraft_dir: i.minecraft_dir.clone(),
        custom_jvm_args: args,
    }
}

/// Converting an instance to its persisted form and back gives the same
/// instance, field for field.
pub proof fn law_config_instance_roundtrip(
    a: crate::instances::InstanceConfig,
    b: InstanceConfig,
    c: crate::instances::InstanceConfig,
)
    requires
        mirrors(a, b),
        mirrors(c, b),
    ensures
        crate::instances::same_instance(a, c),
{
}

} // verus!

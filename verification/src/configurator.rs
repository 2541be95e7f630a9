//! The configurator: what is kept in flash, which configuration the device
//! boots with, and what a command leads to.

use crate::api::{POSITION_MAX_SIZE, WIFI_CONFIG_MAX_SIZE};
use crate::mechanics_config::StartupMechanicsConfig;
use crate::request::Command;
use crate::wifi_config::{WifiConfig, WifiConfigView};
use vstd::prelude::*;

verus! {

/// First byte of the flash range that holds the configuration.
pub const STORAGE_PARTITION_OFFSET: u32 = 0x2A0000;

/// Length of the flash range that holds the configuration.
pub const STORAGE_PARTITION_SIZE: u32 = 0x20000;

/// First byte behind the flash range that holds the configuration.
pub const STORAGE_PARTITION_END: u32 = STORAGE_PARTITION_OFFSET + STORAGE_PARTITION_SIZE;

/// Bytes of a sector of the flash: what is erased at once.
pub const FLASH_SECTOR_SIZE: u32 = 4096;

/// The flash range is made of whole sectors, thirty-two of them: the store
/// needs whole sectors, and two at least.
pub proof fn lemma_storage_partition()
    ensures
        STORAGE_PARTITION_OFFSET % FLASH_SECTOR_SIZE == 0,
        STORAGE_PARTITION_END % FLASH_SECTOR_SIZE == 0,
        STORAGE_PARTITION_END - STORAGE_PARTITION_OFFSET == 32 * FLASH_SECTOR_SIZE,
        STORAGE_PARTITION_END == 0x2C0000,
{
}

/// Bytes that a key takes in the store.
pub const KEY_SIZE: usize = 1;

/// Bytes to which the store aligns what it writes.
pub const FLASH_WORD_SIZE: usize = 4;

/// What the store keeps, each under a key of one byte.
#[derive(Clone, Copy, Debug, PartialEq, Eq, Structural)]
pub enum ConfigKey {
    /// The position and speed limits at power-on.
    Mechanics,
    /// The Wi-Fi configuration.
    Wifi,
}

impl ConfigKey {
    /// The byte under which the store keeps the item.
    pub open spec fn byte_spec(self) -> u8 {
        match self {
            ConfigKey::Mechanics => 0,
            ConfigKey::Wifi => 1,
        }
    }

    /// The byte under which the store keeps the item.
    pub fn byte(self) -> (key: u8)
        ensures
            key == self.byte_spec(),
    {
        match self {
            ConfigKey::Mechanics => 0,
            ConfigKey::Wifi => 1,
        }
    }
}

/// Size of the buffer that the store needs for an item whose value takes up
/// to `max_value_size` bytes: key and value, rounded up to whole flash words.
pub open spec fn buffer_size_spec(max_value_size: nat) -> nat {
    ((KEY_SIZE + max_value_size + FLASH_WORD_SIZE - 1) / (FLASH_WORD_SIZE as int)
        * FLASH_WORD_SIZE) as nat
}

/// Size of the buffer that the store needs for an item whose value takes up
/// to `max_value_size` bytes.
pub fn buffer_size(max_value_size: usize) -> (size: usize)
    requires
        KEY_SIZE + max_value_size + FLASH_WORD_SIZE <= usize::MAX,
    ensures
        size == buffer_size_spec(max_value_size as nat),
        size % FLASH_WORD_SIZE == 0,
        KEY_SIZE + max_value_size <= size < KEY_SIZE + max_value_size + FLASH_WORD_SIZE,
{
    let words: usize = (KEY_SIZE + max_value_size + FLASH_WORD_SIZE - 1) / FLASH_WORD_SIZE;
    words * FLASH_WORD_SIZE
}

/// Why an item could not be fetched.
#[derive(Debug, PartialEq, Eq)]
pub enum StorageError<E> {
    /// The flash, or the store on it, failed.
    Flash(E),
    /// Nothing is stored under the key.
    NotFound,
}

/// Largest body of the mechanics configuration: a position and a velocity.
pub const MECHANICS_CONFIG_MAX_SIZE: usize = POSITION_MAX_SIZE + POSITION_MAX_SIZE;

/// An item on its way into the store.
pub struct StoreItem<T> {
    /// The key to store it under.
    pub key: ConfigKey,
    /// Size of the buffer that the store needs for it.
    pub buffer_size: usize,
    /// The item.
    pub value: T,
}

/// What fetching an item gives, once the store has answered with `fetched`:
/// the item, `NotFound` where the store holds none, or the store's failure.
pub open spec fn fetch_outcome<T, E>(fetched: Result<Option<T>, E>) -> Result<T, StorageError<E>> {
    match fetched {
        Ok(Some(item)) => Ok(item),
        Ok(None) => Err(StorageError::NotFound),
        Err(error) => Err(StorageError::Flash(error)),
    }
}

impl ConfigKey {
    /// Largest body of the item that the key stands for.
    pub open spec fn max_value_size(self) -> usize {
        match self {
            ConfigKey::Mechanics => MECHANICS_CONFIG_MAX_SIZE,
            ConfigKey::Wifi => WIFI_CONFIG_MAX_SIZE,
        }
    }

    /// Size of the buffer that the store needs for the item that the key
    /// stands for.
    pub fn buffer_size(self) -> (size: usize)
        ensures
            size == buffer_size_spec(self.max_value_size() as nat),
            self == ConfigKey::Mechanics ==> size == 36,
            self == ConfigKey::Wifi ==> size == 216,
    {
        match self {
            ConfigKey::Mechanics => buffer_size(MECHANICS_CONFIG_MAX_SIZE),
            ConfigKey::Wifi => buffer_size(WIFI_CONFIG_MAX_SIZE),
        }
    }
}

/// The rules of the store of the configuration: under which key and through
/// what buffer an item goes, and what a fetch amounts to.
pub struct ConfigStorage(());

impl ConfigStorage {
    /// The rules of the store. They hold nothing: the flash is the caller's.
    pub fn new() -> Self {
        ConfigStorage(())
    }

    /// How the mechanics configuration goes into the store.
    pub fn store_mechanics(&self, config: StartupMechanicsConfig) -> (item: StoreItem<
        StartupMechanicsConfig,
    >)
        ensures
            item.key == ConfigKey::Mechanics,
            item.buffer_size == buffer_size_spec(MECHANICS_CONFIG_MAX_SIZE as nat),
            item.value == config,
    {
        StoreItem {
            key: ConfigKey::Mechanics,
            buffer_size: ConfigKey::Mechanics.buffer_size(),
            value: config,
        }
    }

    /// The stored mechanics configuration, once the store has answered with
    /// `fetched`.
    pub fn fetch_mechanics<E>(&self, fetched: Result<Option<StartupMechanicsConfig>, E>) -> (outcome:
        Result<StartupMechanicsConfig, StorageError<E>>)
        ensures
            outcome == fetch_outcome(fetched),
    {
        match fetched {
            Ok(Some(config)) => Ok(config),
            Ok(None) => Err(StorageError::NotFound),
            Err(error) => Err(StorageError::Flash(error)),
        }
    }

    /// How the Wi-Fi configuration goes into the store.
    pub fn store_wifi(&self, config: WifiConfig) -> (item: StoreItem<WifiConfig>)
        ensures
            item.key == ConfigKey::Wifi,
            item.buffer_size == buffer_size_spec(WIFI_CONFIG_MAX_SIZE as nat),
            item.value == config,
    {
        StoreItem { key: ConfigKey::Wifi, buffer_size: ConfigKey::Wifi.buffer_size(), value: config }
    }

    /// The stored Wi-Fi configuration, once the store has answered with
    /// `fetched`.
    pub fn fetch_wifi<E>(&self, fetched: Result<Option<WifiConfig>, E>) -> (outcome: Result<
        WifiConfig,
        StorageError<E>,
    >)
        ensures
            outcome == fetch_outcome(fetched),
    {
        match fetched {
            Ok(Some(config)) => Ok(config),
            Ok(None) => Err(StorageError::NotFound),
            Err(error) => Err(StorageError::Flash(error)),
        }
    }
}

/// What the configurator does with a command.
pub enum ConfiguratorTurn {
    /// Write `store` to flash. Whatever comes of that, publish `publish` as
    /// the configuration in force, then acknowledge the command.
    Configure { store: WifiConfig, publish: WifiConfig },
    /// The command is reserved: nothing is done and nothing acknowledged.
    NotImplemented,
}

/// The configuration to publish at boot, `fetched` being what the flash
/// gave: the stored one, or the default where none is stored or the flash
/// failed.
pub open spec fn boot_config<E>(fetched: Result<WifiConfig, StorageError<E>>) -> WifiConfigView {
    match fetched {
        Ok(config) => config@,
        Err(_) => WifiConfigView::default_view(),
    }
}

/// The configurator.
pub struct Configurator(());

impl Configurator {
    /// A configurator. It holds nothing: the flash is the caller's.
    pub fn make() -> Self {
        Configurator(())
    }

    /// The configuration that the device boots with.
    pub fn boot<E>(&self, fetched: Result<WifiConfig, StorageError<E>>) -> (config: WifiConfig)
        ensures
            config@ == boot_config(fetched),
    {
        match fetched {
            Ok(config) => config,
            Err(_) => WifiConfig::default(),
        }
    }

    /// One turn of the configurator: what `command` leads to.
    pub fn run(&self, command: Command) -> (turn: ConfiguratorTurn)
        ensures
            match command {
                Command::ConfigureWifi(config) => turn matches ConfiguratorTurn::Configure {
                    store,
                    publish,
                } && store@ == config@ && publish@ == config@,
                Command::SetMaxSpeed(_) => turn is NotImplemented,
            },
    {
        match command {
            Command::ConfigureWifi(config) => {
                let store = config.clone();
                ConfiguratorTurn::Configure { store, publish: config }
            },
            Command::SetMaxSpeed(_) => ConfiguratorTurn::NotImplemented,
        }
    }
}

} // verus!

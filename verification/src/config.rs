//! The keys that the front end listens to.

use vstd::prelude::*;

verus! {

/// The keys that move the selection.
#[derive(Debug, Clone, Copy, PartialEq, Eq, Structural)]
pub struct Navigation {
    pub scroll_down: char,
    pub scroll_up: char,
}

/// The keys that act on the selected disk or partition.
#[derive(Debug, Clone, Copy, PartialEq, Eq, Structural)]
pub struct DiskKeys {
    pub info: char,
    pub format: char,
    pub partition: char,
    pub mount: char,
    pub delete: char,
}

/// All key bindings.
#[derive(Debug, Clone, Copy, PartialEq, Eq, Structural)]
pub struct Config {
    pub navigation: Navigation,
    pub disk: DiskKeys,
}

pub fn default_scroll_down() -> (c: char)
    ensures
        c == 'j',
{
    'j'
}

pub fn default_scroll_up() -> (c: char)
    ensures
        c == 'k',
{
    'k'
}

pub fn default_info() -> (c: char)
    ensures
        c == 'i',
{
    'i'
}

pub fn default_format() -> (c: char)
    ensures
        c == 'f',
{
    'f'
}

pub fn default_partition() -> (c: char)
    ensures
        c == 'p',
{
    'p'
}

pub fn default_mount() -> (c: char)
    ensures
        c == 'm',
{
    'm'
}

pub fn default_delete() -> (c: char)
    ensures
        c == 'd',
{
    'd'
}

impl Default for Navigation {
    fn default() -> (n: Navigation)
        ensures
            n == (Navigation { scroll_down: 'j', scroll_up: 'k' }),
    {
        Navigation { scroll_down: default_scroll_down(), scroll_up: default_scroll_up() }
    }
}

impl Default for DiskKeys {
    fn default() -> (k: DiskKeys)
        ensures
            k == (DiskKeys { info: 'i', format: 'f', partition: 'p', mount: 'm', delete: 'd' }),
    {
        DiskKeys {
            info: default_info(),
            format: default_format(),
            partition: default_partition(),
            mount: default_mount(),
            delete: default_delete(),
        }
    }
}

impl Default for Config {
    fn default() -> (c: Config)
        ensures
            c.navigation == (Navigation { scroll_down: 'j', scroll_up: 'k' }),
            c.disk == (DiskKeys { info: 'i', format: 'f', partition: 'p', mount: 'm', delete: 'd' }),
    {
        Config { navigation: Navigation::default(), disk: DiskKeys::default() }
    }
}

/// The bindings in which every key that a file leaves out has its default.
pub fn merge(
    scroll_down: Option<char>,
    scroll_up: Option<char>,
    info: Option<char>,
    format: Option<char>,
    partition: Option<char>,
    mount: Option<char>,
    delete: Option<char>,
) -> (c: Config)
    ensures
        c.navigation.scroll_down == (if scroll_down is Some { scroll_down->0 } else { 'j' }),
        c.navigation.scroll_up == (if scroll_up is Some { scroll_up->0 } else { 'k' }),
        c.disk.info == (if info is Some { info->0 } else { 'i' }),
        c.disk.format == (if format is Some { format->0 } else { 'f' }),
        c.disk.partition == (if partition is Some { partition->0 } else { 'p' }),
        c.disk.mount == (if mount is Some { mount->0 } else { 'm' }),
        c.disk.delete == (if delete is Some { delete->0 } else { 'd' }),
{
    Config {
        navigation: Navigation {
            scroll_down: match scroll_down {
                Some(c) => c,
                None => default_scroll_down(),
            },
            scroll_up: match scroll_up {
                Some(c) => c,
                None => default_scroll_up(),
            },
        },
        disk: DiskKeys {
            info: match info {
                Some(c) => c,
                None => default_info(),
            },
            format: match format {
                Some(c) => c,
                None => default_format(),
            },
            partition: match partition {
                Some(c) => c,
                None => default_partition(),
            },
            mount: match mount {
                Some(c) => c,
                None => default_mount(),
            },
            delete: match delete {
                Some(c) => c,
                None => default_delete(),
            },
        },
    }
}

} // verus!

//! Periodic reload of the switches that may change at run time.

use vstd::prelude::*;

use crate::config::client::GoosefsConfig;
use crate::config::host::HostEnv;
use crate::config::properties::ConfigLoadError;
use crate::time::{Duration, Instant};

verus! {

/// The switches of transparent acceleration.
#[derive(Clone, Copy, Debug, PartialEq, Eq, Structural)]
pub struct TransparentAccelerationSwitch {
    /// Whether transparent acceleration is on.
    pub enabled: bool,
    /// Whether it goes through cosranger.
    pub cosranger_enabled: bool,
}

/// The switches of transparent acceleration in a configuration.
pub open spec fn switch_of(c: GoosefsConfig) -> TransparentAccelerationSwitch {
    TransparentAccelerationSwitch {
        enabled: c.transparent_acceleration_enabled,
        cosranger_enabled: c.transparent_acceleration_cosranger_enabled,
    }
}

/// Keeps the switches of transparent acceleration, and tells when they are to be
/// loaded again.
#[derive(Debug)]
pub struct ConfigRefresher {
    /// When the configuration was last loaded.
    pub last_load_time: Option<Instant>,
    /// How long a loaded configuration is good for.
    pub expire_duration: Duration,
    /// Whether transparent acceleration is on.
    pub transparent_acceleration_enabled: bool,
    /// Whether it goes through cosranger.
    pub cosranger_enabled: bool,
}

impl ConfigRefresher {
    /// The switches that are in force.
    pub open spec fn switch(self) -> TransparentAccelerationSwitch {
        TransparentAccelerationSwitch {
            enabled: self.transparent_acceleration_enabled,
            cosranger_enabled: self.cosranger_enabled,
        }
    }

    /// Whether the configuration is to be loaded again at `now`: it never was, or it
    /// is as old as it may get.
    pub open spec fn expired(self, now: Instant) -> bool {
        match self.last_load_time {
            None => true,
            Some(t) => now.nanos_since(t) >= self.expire_duration.nanos,
        }
    }

    /// A refresher that keeps a configuration for 30 seconds. It starts from
    /// `initial`, what loading the configuration gave; where that failed, from the
    /// defaults.
    pub fn new(
        host: &HostEnv,
        initial: Result<GoosefsConfig, ConfigLoadError>,
        now: Instant,
    ) -> (r: Self)
        ensures
            r.last_load_time == Some(now),
            r.expire_duration.nanos == 30_000_000_000,
            match initial {
                Ok(c) => r.switch() == switch_of(c),
                Err(_) => r.switch() == (TransparentAccelerationSwitch {
                    enabled: true,
                    cosranger_enabled: false,
                }),
            },
    {
        ConfigRefresher::with_expire(host, initial, now, Duration::from_millis(30_000))
    }

    /// A refresher that keeps a configuration for `expire_duration`.
    pub fn with_expire(
        host: &HostEnv,
        initial: Result<GoosefsConfig, ConfigLoadError>,
        now: Instant,
        expire_duration: Duration,
    ) -> (r: Self)
        ensures
            r.last_load_time == Some(now),
            r.expire_duration == expire_duration,
            match initial {
                Ok(c) => r.switch() == switch_of(c),
                Err(_) => r.switch() == (TransparentAccelerationSwitch {
                    enabled: true,
                    cosranger_enabled: false,
                }),
            },
    {
        let config: GoosefsConfig = match initial {
            Ok(c) => c,
            Err(_) => GoosefsConfig::default_on(host),
        };
        ConfigRefresher {
            last_load_time: Some(now),
            expire_duration,
            transparent_acceleration_enabled: config.transparent_acceleration_enabled,
            cosranger_enabled: config.transparent_acceleration_cosranger_enabled,
        }
    }

    /// A refresher that starts from `config` and keeps a configuration for 30
    /// seconds.
    pub fn from_config(config: &GoosefsConfig, now: Instant) -> (r: Self)
        ensures
            r.last_load_time == Some(now),
            r.expire_duration.nanos == 30_000_000_000,
            r.switch() == switch_of(*config),
    {
        ConfigRefresher {
            last_load_time: Some(now),
            expire_duration: Duration::from_millis(30_000),
            transparent_acceleration_enabled: config.transparent_acceleration_enabled,
            cosranger_enabled: config.transparent_acceleration_cosranger_enabled,
        }
    }

    /// Whether the configuration is to be loaded again at `now`.
    pub fn needs_reload(&self, now: Instant) -> (r: bool)
        ensures
            r == self.expired(now),
    {
        match self.last_load_time {
            None => true,
            Some(t) => now.duration_since(t).nanos >= self.expire_duration.nanos,
        }
    }

    /// Takes the switches over from `reloaded`, what loading the configuration
    /// gave; where that failed they stay.
    pub fn reload_properties(&mut self, reloaded: &Result<GoosefsConfig, ConfigLoadError>)
        ensures
            final(self).last_load_time == old(self).last_load_time,
            final(self).expire_duration == old(self).expire_duration,
            final(self).switch() == (match *reloaded {
                Ok(c) => switch_of(c),
                Err(_) => old(self).switch(),
            }),
    {
        if let Ok(c) = reloaded {
            self.transparent_acceleration_enabled = c.transparent_acceleration_enabled;
            self.cosranger_enabled = c.transparent_acceleration_cosranger_enabled;
        }
    }

    /// Takes `reloaded` over where the configuration has expired at `now`.
    /// `loaded_at` is the time at which loading ended.
    pub fn load_if_expire(
        &mut self,
        now: Instant,
        loaded_at: Instant,
        reloaded: &Option<Result<GoosefsConfig, ConfigLoadError>>,
    )
        requires
            old(self).expired(now) ==> *reloaded is Some,
        ensures
            final(self).expire_duration == old(self).expire_duration,
            old(self).expired(now) ==> {
                &&& final(self).last_load_time == Some(loaded_at)
                &&& final(self).switch() == (match reloaded->0 {
                    Ok(c) => switch_of(c),
                    Err(_) => old(self).switch(),
                })
            },
            !old(self).expired(now) ==> {
                &&& final(self).last_load_time == old(self).last_load_time
                &&& final(self).switch() == old(self).switch()
            },
    {
        if self.needs_reload(now) {
            if let Some(result) = reloaded {
                self.reload_properties(result);
                self.last_load_time = Some(loaded_at);
            }
        }
    }

    /// Takes `reloaded` over where the configuration has expired at `now`, and
    /// gives the switches that are then in force.
    pub fn refresh_transparent_acceleration_switch(
        &mut self,
        now: Instant,
        loaded_at: Instant,
        reloaded: &Option<Result<GoosefsConfig, ConfigLoadError>>,
    ) -> (r: TransparentAccelerationSwitch)
        requires
            old(self).expired(now) ==> *reloaded is Some,
        ensures
            r == final(self).switch(),
            final(self).expire_duration == old(self).expire_duration,
            old(self).expired(now) ==> {
                &&& final(self).last_load_time == Some(loaded_at)
                &&& r == (match reloaded->0 {
                    Ok(c) => switch_of(c),
                    Err(_) => old(self).switch(),
                })
            },
            !old(self).expired(now) ==> {
                &&& final(self).last_load_time == old(self).last_load_time
                &&& r == old(self).switch()
            },
    {
        self.load_if_expire(now, loaded_at, reloaded);
        self.current_switch()
    }

    /// The switches that are in force, without a reload.
    pub fn current_switch(&self) -> (r: TransparentAccelerationSwitch)
        ensures
            r == self.switch(),
    {
        TransparentAccelerationSwitch {
            enabled: self.transparent_acceleration_enabled,
            cosranger_enabled: self.cosranger_enabled,
        }
    }
}

/// Right after a reload the configuration has not expired, unless it is kept for
/// no time at all.
pub proof fn law_fresh_after_reload(r: ConfigRefresher, loaded_at: Instant)
    requires
        r.last_load_time == Some(loaded_at),
        r.expire_duration.nanos > 0,
    ensures
        !r.expired(loaded_at),
{
}

/// A configuration that has expired stays expired until it is loaded again.
pub proof fn law_expiry_is_final(r: ConfigRefresher, now: Instant, later: Instant)
    requires
        r.expired(now),
        later.nanos >= now.nanos,
    ensures
        r.expired(later),
{
}

/// A configuration expires when as much time has passed since it was loaded as it is kept for,
/// and one that was never loaded has expired.
pub proof fn law_when_a_configuration_expires(r: ConfigRefresher, loaded_at: Instant, now: Instant)
    requires
        now.nanos >= loaded_at.nanos,
    ensures
        r.last_load_time is None ==> r.expired(now),
        r.last_load_time == Some(loaded_at) ==> (r.expired(now) <==> now.nanos >= loaded_at.nanos
            + r.expire_duration.nanos),
{
}

/// The switches in force and those of a configuration are taken over each from its own field.
pub proof fn law_switches_are_not_mixed_up(r: ConfigRefresher, c: GoosefsConfig)
    ensures
        switch_of(c).enabled == c.transparent_acceleration_enabled,
        switch_of(c).cosranger_enabled == c.transparent_acceleration_cosranger_enabled,
        r.switch().enabled == r.transparent_acceleration_enabled,
        r.switch().cosranger_enabled == r.cosranger_enabled,
{
}

} // verus!

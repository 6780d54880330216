//! The settings kept between runs: the two folders and the schedule.
use vstd::prelude::*;
use crate::schedule::{ScheduleConfig, TimeSelection};

verus! {

/// The settings as they are saved and loaded.
#[derive(Debug)]
pub struct Settings {
    pub backup_path: String,
    pub save_path: String,
    pub daily_backup_hour: i32,
    pub current_selection: TimeSelection,
    pub time: i32,
}

impl Settings {
    /// The schedule that the settings describe.
    pub open spec fn schedule_spec(self) -> ScheduleConfig {
        ScheduleConfig {
            unit: self.current_selection,
            magnitude: self.time,
            daily_hour: self.daily_backup_hour,
        }
    }

    /// The settings for the two folders and a schedule.
    pub fn record(backup_path: &str, save_path: &str, config: ScheduleConfig) -> (r: Settings)
        ensures
            r.backup_path@ == backup_path@,
            r.save_path@ == save_path@,
            r.schedule_spec() == config,
    {
        Settings {
            backup_path: String::from_str(backup_path),
            save_path: String::from_str(save_path),
            daily_backup_hour: config.daily_hour,
            current_selection: config.unit,
            time: config.magnitude,
        }
    }

    /// The schedule held, where it is a valid one.
    pub fn schedule(&self) -> (r: Option<ScheduleConfig>)
        ensures
            r is Some <==> self.schedule_spec().wf(),
            r matches Some(c) ==> c == self.schedule_spec(),
    {
        ScheduleConfig::new(self.current_selection, self.time, self.daily_backup_hour)
    }
}

} // verus!

pub mod average;
pub mod input;
pub mod laws;
pub mod record;
pub mod schedule;

pub use average::{calculate_average_work_hours, AverageWorkHours};
pub use input::{work_day_from_updated, work_days_from_updated};
pub use record::{WorkDay, WorkDayUpdated, WorkTimeError};
pub use schedule::calculate_work_hours;

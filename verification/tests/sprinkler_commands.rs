use happy_garden::date_time::DateTime;
use happy_garden::sprinkler::{
    CommandError, Day, Month, Schedule, ScheduleController, Sprinkler, Status, ZoneController, ZoneRelay,
};

#[test]
fn day_and_month_masks() {
    let days = Day::map(0b0000_0101);
    assert_eq!(days, vec![Some(Day::Sunday), None, Some(Day::Tuesday), None, None, None, None]);
    assert_eq!(Day::Saturday.index(), 6);
    let months = Month::map(0b1000_0000_0001);
    assert_eq!(months.len(), 12);
    assert_eq!(months[0], Some(Month::January));
    assert_eq!(months[11], Some(Month::December));
    assert_eq!(months[5], None);
    assert_eq!(Status::from_u8(Status::RUN.to_u8()), Status::RUN);
    assert_eq!(Status::from_u8(9), Status::UNACTIVE);
    assert_eq!(ZoneRelay::from_u8(7), ZoneRelay::Relay0);
    let mut name = Vec::new();
    ZoneRelay::Relay2.push_name(&mut name);
    assert_eq!(name, b"Relay 2".to_vec());
}

#[test]
fn zone_weight_is_staged_then_stored() {
    let mut zones = ZoneController::new();
    assert_eq!(zones.set("1,weight,7", false), Err(CommandError::NotLogged));
    assert_eq!(zones.set("1,weight,7", true), Ok(()));
    assert_eq!(zones.staged.zone_relay, ZoneRelay::Relay1);
    assert_eq!(zones.staged.weight, 7);
    assert_eq!(zones.exec(true), Ok(()));
    assert_eq!(zones.zones[1].weight, 7);
    assert_eq!(zones.staged.zone_relay, ZoneRelay::Relay0);
    assert_eq!(zones.query(true), Ok(b"3,0,\"\"\r\n".to_vec()));
    assert_eq!(zones.query(false), Err(CommandError::NotLogged));
    let long = format!("2,description,{}", "d".repeat(33));
    assert_eq!(zones.set(&long, true), Err(CommandError::DescriptionTooLong));
    assert_eq!(zones.set("2,colour,1", true), Err(CommandError::InvalidArgs));
    assert_eq!(zones.set("x,weight,1", true), Err(CommandError::InvalidArgs));
}

#[test]
fn schedule_is_staged_saved_and_printed() {
    let mut schedules = ScheduleController::new();
    assert_eq!(schedules.exec(true), Err(CommandError::NothingModified));
    assert_eq!(schedules.set("2,hr,7", true), Ok(false));
    assert_eq!(schedules.staged_index, 2);
    assert_eq!(schedules.staged.hour, 7);
    assert_eq!(schedules.set("2,zn,1,15", true), Ok(false));
    assert_eq!(schedules.staged.zones[0], Some((ZoneRelay::Relay1, 15)));
    assert_eq!(schedules.set("2,zn,1,20", true), Ok(false));
    assert_eq!(schedules.staged.zones[0], Some((ZoneRelay::Relay1, 20)));
    assert_eq!(schedules.query(), b"2,0,7,0,0,,[Relay 1=20, None, None, None]".to_vec());
    assert_eq!(schedules.set("2,sv", true), Ok(true));
    assert_eq!(schedules.exec(true), Ok(()));
    assert_eq!(schedules.schedules[2].hour, 7);
    assert!(!Schedule::is_modified(&schedules.staged));
    assert_eq!(schedules.query(), b"0,0,0,0,0,,[None, None, None, None]".to_vec());
    assert_eq!(schedules.set("1,ds,garden", false), Err(CommandError::NotLogged));
}

#[test]
fn the_first_due_schedule_starts() {
    let mut schedules = ScheduleController::new();
    assert_eq!(schedules.set("0,hr,9", true), Ok(false));
    assert_eq!(schedules.exec(true), Ok(()));
    let now = DateTime { year: 2025, month: 5, mday: 3, wday: 6, hour: 7, minute: 30, second: 0, millis: 0 };
    assert!(!schedules.schedules[0].executable(&now));
    assert!(schedules.schedules[1].executable(&now));
    let mut sprinkler = Sprinkler::new();
    sprinkler.check(&mut schedules, &now);
    assert!(sprinkler.in_progress);
    assert_eq!(schedules.schedules[1].status, Status::RUN);
    assert_eq!(schedules.schedules[2].status, Status::UNACTIVE);
    sprinkler.check(&mut schedules, &now);
    assert_eq!(schedules.schedules[2].status, Status::UNACTIVE);
}

use happy_garden::config::{Auth, WifiConfig};
use happy_garden::display::header::RssiStatus;
use happy_garden::display::settings::Display;
use happy_garden::gpio::{GpioConfig, GpioConfigs, Type};
use happy_garden::storage::{after_decode, after_open, LoadStep, OpenStep};
use happy_garden::system::{led_color, led_tick, Color, TimeSync, Wifi, WifiAction, WifiStatus};
use happy_garden::text_format::{decimal, push_padded};
use happy_garden::command_args::parse_unsigned;

#[test]
fn led_blinks_orange_during_start_up_and_turns_green() {
    let orange = Color { r: 255, g: 165, b: 0 };
    let off = Color { r: 0, g: 0, b: 0 };
    assert_eq!(led_color(0x04, 0), orange);
    assert_eq!(led_color(0x04, 600), off);
    assert_eq!(led_color(0x40, 1499), orange);
    assert_eq!(led_color(0x40, 1500), off);
    assert_eq!(led_color(0x80, 0), Color { r: 0, g: 255, b: 0 });
    assert_eq!(led_color(0x0080_0080, 700), Color { r: 0, g: 255, b: 0 });
    assert_eq!(led_color(0x0100, 100), Color { r: 255, g: 0, b: 0 });
    assert_eq!(led_color(0x0200, 100), off);
    assert_eq!(led_tick(65500), 64);
    assert_eq!(led_tick(100), 200);
}

#[test]
fn wifi_task_decisions() {
    let mut wifi = Wifi::shared();
    assert_eq!(wifi.get_status(), WifiStatus::Disabled);
    assert_eq!(wifi.on_status_change(WifiStatus::Connecting), WifiAction::Report);
    assert_eq!(wifi.on_status_change(WifiStatus::Connected), WifiAction::SyncTime);
    assert_eq!(wifi.get_status(), WifiStatus::Connected);
    assert_eq!(wifi.on_time(0), TimeSync::Ignore);
    assert_eq!(wifi.on_time(1_700_000_000), TimeSync::NoClock);
    wifi.set_rtc();
    assert_eq!(wifi.on_time(1_700_000_000), TimeSync::SetClock);
    assert_eq!(wifi.on_rssi_change(RssiStatus::Good), 0xC0);
    assert_eq!(wifi.on_rssi_change(RssiStatus::NoSignal), 0x180);
}

#[test]
fn wifi_settings_are_capped() {
    let mut config = WifiConfig::default();
    assert_eq!(config.get_auth(), Auth::Wpa2);
    assert!(!config.is_enabled());
    config.set_ssid(&[b'n'; 40]);
    assert_eq!(config.get_ssid().len(), 32);
    config.set_password(&[b'p'; 70]);
    assert_eq!(config.get_password().len(), 64);
    config.set_hostname(b"garden");
    assert_eq!(config.get_hostname(), &b"garden".to_vec());
    assert_eq!(config.get_version(), 0);
    let mut display = Display::shared();
    assert!(display.wifi_enabled);
    display.set_enabled_wifi(false);
    assert!(!display.wifi_enabled);
}

#[test]
fn pin_table_updates_by_name_only() {
    let mut table: GpioConfigs<2> = GpioConfigs::new();
    assert!(!table.push(GpioConfig::new(b"LED", Type::Output, 0, 25, None, None)));
    table.array[1] = Some(GpioConfig::new(b"LED", Type::Output, 0, 25, None, None));
    assert!(table.push(GpioConfig::new(b"LED", Type::OutputPWM, 1, 26, None, None)));
    assert_eq!(table.index, 1);
    let slot = table.array[1].as_ref().expect("the slot is kept");
    assert_eq!(slot.pin, 26);
    assert_eq!(table.index(&GpioConfig::new(b"LED", Type::Input, 0, 0, None, None).name), Some(1));
    assert_eq!(table.index(&b"LED".to_vec()), None);
    let blank = GpioConfig::default();
    assert_eq!(blank.name, vec![b' '; 16]);
    table.index = 2;
    assert!(!table.push(GpioConfig::new(b"LED", Type::Output, 0, 27, None, None)));
}

#[test]
fn storage_decisions() {
    assert_eq!(after_open(None), OpenStep::Read);
    assert_eq!(after_open(Some(-2)), OpenStep::Create);
    assert_eq!(after_open(Some(-5)), OpenStep::Fail);
    assert_eq!(after_decode(&None, false, false), LoadStep::UseDefaultsAndStore);
    assert_eq!(after_decode(&Some(Vec::new()), true, false), LoadStep::UseDefaultsAndStore);
    assert_eq!(after_decode(&Some(vec![0xFF, 0xFE]), false, false), LoadStep::Fail);
    assert_eq!(after_decode(&Some(b"{}".to_vec()), true, true), LoadStep::Use);
    assert_eq!(after_decode(&Some(b"{oops".to_vec()), true, false), LoadStep::UseDefaultsAndStore);
}

#[test]
fn numbers_written_read_back() {
    for v in [0u64, 7, 10, 99, 255] {
        assert_eq!(parse_unsigned(&decimal(v), 255), Some(v));
    }
    let mut out = Vec::new();
    push_padded(&mut out, 5, 4);
    assert_eq!(out, b"0005".to_vec());
    let mut out = Vec::new();
    push_padded(&mut out, -5, 4);
    assert_eq!(out, b"-005".to_vec());
    let mut out = Vec::new();
    push_padded(&mut out, 12345, 2);
    assert_eq!(out, b"12345".to_vec());
}

#[test]
fn default_wifi_settings_use_the_garden_hostname() {
    let d = WifiConfig::default();
    assert!(d.get_ssid().is_empty());
    assert!(d.get_password().is_empty());
    assert_eq!(d.get_hostname(), &b"hi-happy-garden".to_vec());
    assert!(!d.is_enabled());
}

#[test]
fn refused_pin_push_keeps_the_table() {
    let mut table: GpioConfigs<2> = GpioConfigs::new();
    table.array[0] = Some(GpioConfig::new(b"RELAY", Type::Output, 0, 2, None, None));
    assert!(!table.push(GpioConfig::new(b"LED", Type::Output, 1, 25, None, None)));
    assert_eq!(table.index, 0);
    assert_eq!(table.array[0].as_ref().map(|c| c.pin), Some(2));
    assert!(table.array[1].is_none());
}

#[test]
fn auth_codes_read_back() {
    for a in [Auth::Open, Auth::Wpa, Auth::Wpa2, Auth::Wpa2Mixed, Auth::Wpa3, Auth::Wpa2Wpa3] {
        assert_eq!(Auth::from_code(a.code()), Some(a));
    }
    assert_eq!(Auth::Wpa3.code(), 4);
    assert_eq!(Auth::from_code(6), None);
}

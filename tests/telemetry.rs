use winfetch::enumerator::{NextOutcome, ResultCursor, CursorState, WBEM_S_FALSE, WBEM_S_NO_ERROR};
use winfetch::error::ErrorKind;
use winfetch::model::graphicscard::GraphicsCard;
use winfetch::query::{Action, QueryRun, Stage};
use winfetch::model::memory::Memory;
use winfetch::model::names::Names;
use winfetch::model::os::OS;
use winfetch::model::processorusage::{ProcessTally, ProcessorUsage};
use winfetch::model::screenres::ScreenResolution;
use winfetch::model::storage::{MountPath, Storage, StorageDrive};
use winfetch::model::uptime::{BootTime, SystemUptime};
use winfetch::model::winntkernel::WindowsNTKernel;
use winfetch::record::{Field, Record};
use winfetch::session::{Resource, ResourceLedger, Step};
use winfetch::utils::GeneratePercentageBar;
use winfetch::value::{RawValue, TypedValue, ValueKind, VT_BSTR, VT_I4};
use winfetch::winfetch::utils::{GetWindowsASCIIArt, WINDOWS_ASCII_ART};

const GREEN: &str = "\x1B[32m\u{25A0}\x1B[0m";
const YELLOW: &str = "\x1B[93m\u{25A0}\x1B[0m";
const RED: &str = "\x1B[91m\u{25A0}\x1B[0m";

fn text(s: &str) -> RawValue {
    RawValue { tag: VT_BSTR, wide: s.encode_utf16().collect(), integer: 0 }
}

fn integer(n: i32) -> RawValue {
    RawValue { tag: VT_I4, wide: Vec::new(), integer: n }
}

fn record(fields: Vec<(&str, RawValue)>) -> Record {
    Record {
        fields: fields
            .into_iter()
            .map(|(name, value)| Field { name: name.to_string(), value })
            .collect(),
    }
}

fn bar(green: usize, yellow: usize, red: usize) -> String {
    format!(
        "[ {}{}{}{} ]",
        GREEN.repeat(green),
        YELLOW.repeat(yellow),
        RED.repeat(red),
        "-".repeat(10 - green - yellow - red)
    )
}

const STEPS: [Step; 7] = [
    Step::InitializeContext,
    Step::CreateLocator,
    Step::ConnectNamespace,
    Step::NegotiateSecurity,
    Step::ExecuteQuery,
    Step::NextRecord,
    Step::ReadProperty,
];

#[test]
fn failure_at_every_step_releases_all() {
    for k in 0..STEPS.len() {
        let mut ledger = ResourceLedger::new();
        for step in &STEPS[..k] {
            ledger.succeeded(*step);
        }
        let acquired_before = ledger.acquired();
        let (releases, error) = ledger.abort(STEPS[k]);
        assert_eq!(ledger.acquired(), ledger.released());
        assert_eq!(ledger.held(), 0);
        assert_eq!(releases.len() as u64, acquired_before);
        let expected_kind = match STEPS[k] {
            Step::ExecuteQuery => ErrorKind::Query,
            Step::NextRecord => ErrorKind::Enumeration,
            Step::ReadProperty => ErrorKind::PropertyMissing,
            _ => ErrorKind::Connection,
        };
        assert_eq!(error.kind(), expected_kind);
    }
}

#[test]
fn teardown_releases_innermost_first() {
    let mut ledger = ResourceLedger::new();
    for step in &STEPS {
        ledger.succeeded(*step);
    }
    assert_eq!(ledger.acquired(), 6);
    let releases = ledger.teardown();
    assert_eq!(
        releases,
        vec![
            Resource::Value,
            Resource::Record,
            Resource::Enumerator,
            Resource::Connection,
            Resource::Locator,
            Resource::Context
        ]
    );
    assert_eq!(ledger.released(), 6);
    assert!(ledger.teardown().is_empty());
    assert_eq!(ledger.released(), 6);
}

#[test]
fn failed_context_releases_nothing() {
    let mut ledger = ResourceLedger::new();
    let (releases, error) = ledger.abort(Step::InitializeContext);
    assert!(releases.is_empty());
    assert_eq!(error.kind(), ErrorKind::Connection);
    assert_eq!(ledger.acquired(), 0);
    assert_eq!(ledger.released(), 0);
}

#[test]
fn release_last_pops_one() {
    let mut ledger = ResourceLedger::new();
    ledger.succeeded(Step::InitializeContext);
    ledger.succeeded(Step::NextRecord);
    assert_eq!(ledger.release_last(), Some(Resource::Record));
    assert_eq!(ledger.release_last(), Some(Resource::Context));
    assert_eq!(ledger.release_last(), None);
    assert_eq!(ledger.acquired(), ledger.released());
}

#[test]
fn mismatched_kind_is_reported() {
    let r = integer(42).extract(ValueKind::Text).unwrap_err();
    assert_eq!(r.kind(), ErrorKind::TypeMismatch);
    let r = text("42").extract(ValueKind::Integer32).unwrap_err();
    assert_eq!(r.kind(), ErrorKind::TypeMismatch);
    let null = RawValue { tag: 1, wide: Vec::new(), integer: 0 };
    assert_eq!(null.extract(ValueKind::Text).unwrap_err().kind(), ErrorKind::TypeMismatch);
    assert_eq!(null.extract(ValueKind::Integer32).unwrap_err().kind(), ErrorKind::TypeMismatch);
    let rec = record(vec![("LoadPercentage", text("12"))]);
    assert_eq!(rec.GetProperty("LoadPercentage", ValueKind::Integer32).unwrap_err().kind(), ErrorKind::TypeMismatch);
}

#[test]
fn values_decode() {
    match integer(-7).extract(ValueKind::Integer32).unwrap() {
        TypedValue::Integer32(n) => assert_eq!(n, -7),
        other => panic!("unexpected {:?}", other),
    }
    let mut wide: Vec<u16> = "C:".encode_utf16().collect();
    wide.push(0);
    wide.extend("junk".encode_utf16());
    let raw = RawValue { tag: VT_BSTR, wide, integer: 0 };
    match raw.extract(ValueKind::Text).unwrap() {
        TypedValue::Text(s) => assert_eq!(s, "C:"),
        other => panic!("unexpected {:?}", other),
    }
    let pair = RawValue { tag: VT_BSTR, wide: vec![0x41, 0xD83D, 0xDE00], integer: 0 };
    match pair.extract(ValueKind::Text).unwrap() {
        TypedValue::Text(s) => assert_eq!(s, "A\u{1F600}"),
        other => panic!("unexpected {:?}", other),
    }
    let lone_low = RawValue { tag: VT_BSTR, wide: vec![0xDC00], integer: 0 };
    assert_eq!(lone_low.extract(ValueKind::Text).unwrap_err().kind(), ErrorKind::Parse);
    let bad = RawValue { tag: VT_BSTR, wide: vec![0xD800, 0x41], integer: 0 };
    assert_eq!(bad.extract(ValueKind::Text).unwrap_err().kind(), ErrorKind::Parse);
}

#[test]
fn missing_property() {
    let rec = record(vec![("Name", text("x"))]);
    assert_eq!(rec.GetProperty("Size", ValueKind::Text).unwrap_err().kind(), ErrorKind::PropertyMissing);
    assert_eq!(rec.GetText("Name").unwrap(), "x");
    let dup = record(vec![("Name", text("first")), ("Name", text("second"))]);
    assert_eq!(dup.GetText("Name").unwrap(), "first");
}

#[test]
fn first_record_only() {
    let records = vec![record(vec![("Name", text("a"))]), record(vec![("Name", text("b"))])];
    assert_eq!(Record::first_of(records).unwrap().GetText("Name").unwrap(), "a");
    assert_eq!(Record::first_of(vec![]).unwrap_err().kind(), ErrorKind::Enumeration);
}

#[test]
fn numbers_parse() {
    let rec = record(vec![("A", text("18446744073709551615")), ("B", text("18446744073709551616")), ("C", text("")), ("D", text("1.5"))]);
    assert_eq!(rec.GetNumber("A").unwrap(), u64::MAX);
    assert_eq!(rec.GetNumber("B").unwrap_err().kind(), ErrorKind::Parse);
    assert_eq!(rec.GetNumber("C").unwrap_err().kind(), ErrorKind::Parse);
    assert_eq!(rec.GetNumber("D").unwrap_err().kind(), ErrorKind::Parse);
}

fn run_result_set(n: usize) -> (u64, NextOutcome) {
    let mut cursor = ResultCursor::new();
    let mut events = vec![(WBEM_S_NO_ERROR, 1u32); n];
    events.push((WBEM_S_FALSE, 0));
    let mut last = NextOutcome::Record;
    for (status, returned) in events {
        last = cursor.advance(status, returned);
        if last != NextOutcome::Record {
            break;
        }
    }
    (cursor.yielded(), last)
}

#[test]
fn result_sets_of_zero_one_three() {
    assert_eq!(run_result_set(0), (0, NextOutcome::EndOfResults));
    assert_eq!(run_result_set(1), (1, NextOutcome::EndOfResults));
    assert_eq!(run_result_set(3), (3, NextOutcome::EndOfResults));
}

#[test]
fn enumeration_end_and_failure_stick() {
    let mut cursor = ResultCursor::new();
    assert_eq!(cursor.advance(WBEM_S_NO_ERROR, 0), NextOutcome::EndOfResults);
    assert_eq!(cursor.advance(WBEM_S_NO_ERROR, 1), NextOutcome::EndOfResults);
    assert_eq!(cursor.yielded(), 0);
    let mut cursor = ResultCursor::new();
    assert_eq!(cursor.advance(WBEM_S_NO_ERROR, 1), NextOutcome::Record);
    assert_eq!(cursor.advance(-2147217407, 0), NextOutcome::Failed);
    assert_eq!(cursor.state(), CursorState::Failed);
    assert_eq!(cursor.advance(WBEM_S_NO_ERROR, 1), NextOutcome::Failed);
    assert_eq!(cursor.yielded(), 1);
}

#[test]
fn percentage_bar_seventy_three() {
    assert_eq!(GeneratePercentageBar(73).unwrap(), bar(6, 1, 0));
}

#[test]
fn percentage_bar_bounds() {
    assert_eq!(GeneratePercentageBar(0).unwrap(), "[ ---------- ]");
    assert_eq!(GeneratePercentageBar(9).unwrap(), "[ ---------- ]");
    assert_eq!(GeneratePercentageBar(60).unwrap(), bar(6, 0, 0));
    assert_eq!(GeneratePercentageBar(80).unwrap(), bar(6, 2, 0));
    assert_eq!(GeneratePercentageBar(100).unwrap(), bar(6, 2, 2));
    assert_eq!(GeneratePercentageBar(-1).unwrap_err().kind(), ErrorKind::InvalidInput);
    assert_eq!(GeneratePercentageBar(101).unwrap_err().kind(), ErrorKind::InvalidInput);
    assert_eq!(winfetch::winfetch::utils::GeneratePercentageBar(73).unwrap(), bar(6, 1, 0));
    assert_eq!(winfetch::winfetch::utils::GeneratePercentageBar(-5).unwrap_err().kind(), ErrorKind::InvalidInput);
}

#[test]
fn memory_half_used() {
    let rec = record(vec![("FreePhysicalMemory", text("8388608")), ("TotalVisibleMemorySize", text("16777216"))]);
    let m = Memory::GetMemoryStatistics(&rec).unwrap();
    assert_eq!(m.FreeKilobytes(), 8388608);
    assert_eq!(m.TotalKilobytes(), 16777216);
    assert_eq!(m.UsedKilobytes(), Some(8388608));
    assert_eq!(m.UsagePercentage(), Some(50));
    assert_eq!(m.to_text().unwrap(), format!("{} 8.00 GB / 16.00 GB", bar(5, 0, 0)));
}

#[test]
fn memory_errors() {
    let rec = record(vec![("FreePhysicalMemory", text("x")), ("TotalVisibleMemorySize", text("16"))]);
    assert_eq!(Memory::GetMemoryStatistics(&rec).unwrap_err().kind(), ErrorKind::Parse);
    let rec = record(vec![("FreePhysicalMemory", text("1"))]);
    assert_eq!(Memory::GetMemoryStatistics(&rec).unwrap_err().kind(), ErrorKind::PropertyMissing);
    assert_eq!(Memory::new(2, 1).to_text().unwrap_err().kind(), ErrorKind::InvalidInput);
    assert_eq!(Memory::new(0, 0).to_text().unwrap_err().kind(), ErrorKind::InvalidInput);
}

#[test]
fn memory_reads_both_fields_before_parsing() {
    let rec = record(vec![("FreePhysicalMemory", text("x")), ("TotalVisibleMemorySize", integer(16))]);
    assert_eq!(Memory::GetMemoryStatistics(&rec).unwrap_err().kind(), ErrorKind::TypeMismatch);
    let rec = record(vec![("FreePhysicalMemory", text("x"))]);
    assert_eq!(Memory::GetMemoryStatistics(&rec).unwrap_err().kind(), ErrorKind::PropertyMissing);
    let rec = record(vec![("FreePhysicalMemory", integer(8388608)), ("TotalVisibleMemorySize", text("16777216"))]);
    assert_eq!(Memory::GetMemoryStatistics(&rec).unwrap_err().kind(), ErrorKind::TypeMismatch);
}

#[test]
fn storage_reads_all_fields_before_parsing() {
    let rec = record(vec![("DeviceID", text("C:")), ("FreeSpace", text("x"))]);
    assert_eq!(Storage::GetStorageStatistics(&vec![rec]).unwrap_err().kind(), ErrorKind::PropertyMissing);
    let rec = record(vec![("DeviceID", text("C:")), ("FreeSpace", text("x")), ("Size", integer(5))]);
    assert_eq!(Storage::GetStorageStatistics(&vec![rec]).unwrap_err().kind(), ErrorKind::TypeMismatch);
}

#[test]
fn uptime_one_day_one_hour_one_minute() {
    let u = SystemUptime::FromElapsed(90061);
    assert_eq!((u.Days(), u.Hours(), u.Minutes()), (1, 1, 1));
    assert_eq!(u.to_text(), "1 day(s) 1 hour(s) 1 minute(s)");
    let u = SystemUptime::FromTimestamps(1000, 1000 + 90061);
    assert_eq!((u.Days(), u.Hours(), u.Minutes()), (1, 1, 1));
    let u = SystemUptime::FromTimestamps(5000, 10);
    assert_eq!((u.Days(), u.Hours(), u.Minutes()), (0, 0, 0));
    let u = SystemUptime::FromElapsed(59);
    assert_eq!((u.Days(), u.Hours(), u.Minutes()), (0, 0, 0));
}

#[test]
fn boot_time_parses() {
    let b = BootTime::parse("20240115083005.500000+060").unwrap();
    assert_eq!((b.year, b.month, b.day, b.hour, b.minute, b.second), (2024, 1, 15, 8, 30, 5));
    assert!(BootTime::parse("20241315083005.500000+060").is_none());
    assert!(BootTime::parse("20240015083005").is_none());
    assert!(BootTime::parse("2024011508300").is_none());
    assert!(BootTime::parse("2024a115083005").is_none());
}

const NOW: i64 = 1_780_000_000;

#[test]
fn uptime_from_record() {
    let rec = record(vec![("LastBootUpTime", text("20240115083005.500000+060"))]);
    let u = SystemUptime::GetSystemUptime(&rec, NOW).unwrap();
    assert!(u.Days() > 0);
    assert!(u.Hours() < 24 && u.Minutes() < 60);
    let bad_month = record(vec![("LastBootUpTime", text("20241315083005.500000+060"))]);
    assert_eq!(SystemUptime::GetSystemUptime(&bad_month, NOW).unwrap_err().kind(), ErrorKind::Parse);
    let bad_day = record(vec![("LastBootUpTime", text("20240132083005.500000+060"))]);
    assert_eq!(SystemUptime::GetSystemUptime(&bad_day, NOW).unwrap_err().kind(), ErrorKind::Parse);
    let wrong_kind = record(vec![("LastBootUpTime", integer(3))]);
    assert_eq!(SystemUptime::GetSystemUptime(&wrong_kind, NOW).unwrap_err().kind(), ErrorKind::TypeMismatch);
    let missing = record(vec![]);
    assert_eq!(SystemUptime::GetSystemUptime(&missing, NOW).unwrap_err().kind(), ErrorKind::PropertyMissing);
    let short = record(vec![("LastBootUpTime", text("2024011508"))]);
    assert_eq!(SystemUptime::GetSystemUptime(&short, NOW).unwrap_err().kind(), ErrorKind::Parse);
}

#[test]
fn uptime_within_a_day_of_utc_reading() {
    // 2024-01-15 08:30:05 UTC is 1705307405 seconds after the epoch.
    let rec = record(vec![("LastBootUpTime", text("20240115083005.500000+000"))]);
    let now = 1_705_307_405 + 10 * 86_400;
    let u = SystemUptime::GetSystemUptime(&rec, now).unwrap();
    assert!(u.Days() == 9 || u.Days() == 10);
}

#[test]
fn uptime_rejects_dates_that_do_not_exist() {
    for t in ["20240231000000.000000+000", "20230229000000.000000+000", "20240431000000.000000+000", "20240115240000.000000+000"] {
        let rec = record(vec![("LastBootUpTime", text(t))]);
        assert_eq!(SystemUptime::GetSystemUptime(&rec, NOW).unwrap_err().kind(), ErrorKind::Parse, "{}", t);
    }
    let leap = record(vec![("LastBootUpTime", text("20240229120000.000000+000"))]);
    assert!(SystemUptime::GetSystemUptime(&leap, NOW).is_ok());
}

#[test]
fn storage_mount_path() {
    assert_eq!(MountPath("C:"), "/mnt/c/");
    assert_eq!(MountPath("d:"), "/mnt/d/");
}

#[test]
fn storage_from_records() {
    let records = vec![
        record(vec![("DeviceID", text("C:")), ("FreeSpace", text("107374182400")), ("Size", text("429496729600"))]),
        record(vec![("DeviceID", text("E:")), ("FreeSpace", text("0")), ("Size", text("2199023255552"))]),
    ];
    let s = Storage::GetStorageStatistics(&records).unwrap();
    assert_eq!(s.Drives.len(), 2);
    assert_eq!(s.Drives[0].mount_path(), "/mnt/c/");
    assert_eq!(s.Drives[0].free_bytes(), 107374182400);
    assert_eq!(s.Drives[1].size_bytes(), 2199023255552);
    assert_eq!(
        s.Drives[0].to_text().unwrap(),
        format!("\x1B[34m Drive (/mnt/c/)\x1B[0m: {} 300.00 GB / 400.00 GB", bar(6, 1, 0))
    );
    assert_eq!(
        s.Drives[1].to_text().unwrap(),
        format!("\x1B[34m Drive (/mnt/e/)\x1B[0m: {} 2.00 TB / 2.00 TB", bar(6, 2, 2))
    );
    assert_eq!(s.to_text().unwrap(), format!("{}{}", s.Drives[0].to_text().unwrap(), s.Drives[1].to_text().unwrap()));
    assert_eq!(Storage::GetStorageStatistics(&vec![]).unwrap().Drives.len(), 0);
}

#[test]
fn storage_errors() {
    let records = vec![
        record(vec![("DeviceID", text("C:")), ("FreeSpace", text("1")), ("Size", text("2"))]),
        record(vec![("DeviceID", text("D:")), ("FreeSpace", integer(1)), ("Size", text("2"))]),
    ];
    assert_eq!(Storage::GetStorageStatistics(&records).unwrap_err().kind(), ErrorKind::TypeMismatch);
    let d = StorageDrive::new("/mnt/z/".to_string(), 5, 4);
    assert_eq!(d.to_text().unwrap_err().kind(), ErrorKind::InvalidInput);
    let empty = StorageDrive::new("/mnt/z/".to_string(), 0, 0);
    assert_eq!(empty.to_text().unwrap(), format!("\x1B[34m Drive (/mnt/z/)\x1B[0m: {} 0.00 GB / 0.00 GB", bar(0, 0, 0)));
}

#[test]
fn graphics_cards_in_order() {
    let records = vec![record(vec![("Name", text("Radeon"))]), record(vec![("Name", text("Intel UHD"))])];
    let g = GraphicsCard::GetGraphicsCards(&records).unwrap();
    assert_eq!(g.to_text(), "Radeon, Intel UHD");
    assert_eq!(GraphicsCard::GetGraphicsCards(&vec![]).unwrap().to_text(), "");
    let bad = vec![record(vec![("Name", text("A"))]), record(vec![])];
    assert_eq!(GraphicsCard::GetGraphicsCards(&bad).unwrap_err().kind(), ErrorKind::PropertyMissing);
}

#[test]
fn processor_load_and_processes() {
    let rec = record(vec![("LoadPercentage", integer(37))]);
    let mut u = ProcessorUsage::GetProcessorLoadPercentage(&rec).unwrap();
    assert_eq!(u.LoadPercentage(), 37);
    assert_eq!(u.Processes(), 0);
    let mut tally = ProcessTally::new();
    let mut more = tally.observe(true);
    let mut seen = 1;
    while more {
        more = tally.observe(seen < 4);
        seen += 1;
    }
    assert_eq!(tally.Count(), 4);
    assert!(!tally.observe(true));
    u.GetProcessesCount(&tally);
    assert_eq!(u.Processes(), 4);
    assert_eq!(u.to_text().unwrap(), format!("{} 4 processes", bar(3, 0, 0)));
    assert_eq!(ProcessorUsage::new(120, 1).to_text().unwrap_err().kind(), ErrorKind::InvalidInput);
    let none = ProcessTally::new();
    assert_eq!(none.Count(), 0);
}

#[test]
fn os_built_at_once() {
    let rec = record(vec![("OSArchitecture", text("64-bit"))]);
    let os = OS::GetOperatingSystemVersion("Windows 10 Pro".to_string(), "22H2".to_string(), &rec).unwrap();
    assert_eq!(os.to_text(), "Windows 10 Pro, Version 22H2 [64-bit]");
    assert_eq!(OS::GetOperatingSystemArchitecture(&rec).unwrap(), "64-bit");
    let bad = record(vec![("OSArchitecture", integer(64))]);
    assert_eq!(OS::GetOperatingSystemVersion("a".to_string(), "b".to_string(), &bad).unwrap_err().kind(), ErrorKind::TypeMismatch);
}

#[test]
fn kernel_version_text() {
    let k = WindowsNTKernel::GetCurrentWindowsNTKernelVersion(10, 0, 19045);
    assert_eq!(k.to_text(), "10.0.19045");
}

#[test]
fn names_text() {
    let n = Names::GetNames("DESKTOP-1".to_string(), "Alice".to_string());
    assert_eq!(n.to_text(), "\x1B[34malice\x1B[0m@\x1B[34mdesktop-1\x1B[0m");
    assert_eq!(n.Separator(), "-".repeat("alice@desktop-1".len()));
}

#[test]
fn screen_resolutions_text() {
    let s = ScreenResolution::GetScreenResolution(vec![(1920, 1080), (1280, 1024)]);
    assert_eq!(s.to_text(), "1920x1080, 1280x1024");
    assert_eq!(ScreenResolution::GetScreenResolution(vec![(-1, 0)]).to_text(), "-1x0");
}

#[test]
fn windows_art() {
    let art = GetWindowsASCIIArt();
    assert_eq!(art, WINDOWS_ASCII_ART);
    let lines: Vec<&str> = art.lines().collect();
    assert_eq!(lines.len(), 18);
    assert!(lines.iter().all(|l| l.starts_with(" \x1B[34m")));
    assert_eq!(lines[0], " \x1B[34m                    ....,,:;+ccllll");
    assert_eq!(lines[15], " \x1B[34m      `' \\\\*::  :ccllllllllllllllll");
}

/// Drives a run that fails at the `fail_at`-th call it asks for, with
/// `records` records of one field each; returns the run, the releases in
/// order, and the kind of the error.
fn drive(fail_at: usize, records: usize, first_only: bool) -> (QueryRun, Vec<Resource>, Option<ErrorKind>) {
    let mut run = QueryRun::new(1, first_only);
    let mut releases = Vec::new();
    let mut calls = 0;
    let mut delivered = 0;
    loop {
        let ok = calls != fail_at;
        calls += 1;
        let report = match run.next_action() {
            Action::Finished => break,
            Action::Perform(Step::NextRecord) => {
                if !ok {
                    run.report_next(-2147217407, 0)
                } else if delivered < records {
                    delivered += 1;
                    run.report_next(WBEM_S_NO_ERROR, 1)
                } else {
                    run.report_next(WBEM_S_FALSE, 0)
                }
            }
            Action::Perform(_) | Action::ReadField(_) => run.report(ok),
        };
        releases.extend(report.releases);
        if let Some(e) = report.error {
            return (run, releases, Some(e.kind()));
        }
    }
    (run, releases, None)
}

#[test]
fn query_run_fails_at_every_step_without_leak() {
    let kinds = [
        ErrorKind::Connection,
        ErrorKind::Connection,
        ErrorKind::Connection,
        ErrorKind::Connection,
        ErrorKind::Query,
        ErrorKind::Enumeration,
        ErrorKind::PropertyMissing,
    ];
    let held_before = [0u64, 1, 2, 3, 3, 4, 5];
    for k in 0..7 {
        let (run, releases, kind) = drive(k, 1, true);
        assert_eq!(kind, Some(kinds[k]), "failure at call {}", k);
        assert_eq!(run.current_stage(), Stage::Stopped);
        assert!(run.is_finished());
        assert_eq!(run.acquired(), run.released());
        assert_eq!(releases.len() as u64, held_before[k]);
    }
}

#[test]
fn query_run_releases_in_reverse() {
    let (_, releases, kind) = drive(6, 1, true);
    assert_eq!(kind, Some(ErrorKind::PropertyMissing));
    assert_eq!(
        releases,
        vec![Resource::Record, Resource::Enumerator, Resource::Connection, Resource::Locator, Resource::Context]
    );
}

#[test]
fn query_run_reads_zero_one_three_records() {
    for n in [0usize, 1, 3] {
        let (run, releases, kind) = drive(usize::MAX, n, false);
        assert_eq!(kind, None);
        assert_eq!(run.current_stage(), Stage::Complete);
        assert_eq!(run.acquired(), run.released());
        assert_eq!(run.acquired(), 4 + 2 * n as u64);
        let values = releases.iter().filter(|r| **r == Resource::Value).count();
        let records = releases.iter().filter(|r| **r == Resource::Record).count();
        assert_eq!((values, records), (n, n));
        assert_eq!(&releases[releases.len() - 4..], &[Resource::Enumerator, Resource::Connection, Resource::Locator, Resource::Context]);
    }
}

#[test]
fn query_run_first_record_only() {
    let (run, releases, kind) = drive(usize::MAX, 3, true);
    assert_eq!(kind, None);
    assert_eq!(run.current_stage(), Stage::Complete);
    assert_eq!(
        releases,
        vec![Resource::Value, Resource::Record, Resource::Enumerator, Resource::Connection, Resource::Locator, Resource::Context]
    );
    let mut run = QueryRun::new(1, true);
    let report = run.abandon();
    assert!(report.releases.is_empty());
    assert_eq!(report.error.unwrap().kind(), ErrorKind::Enumeration);
}

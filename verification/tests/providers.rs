use metrics_stream::provider::{cpu_data, disk_data, ram_data, swap_data};
use metrics_stream::reading::Inconsistent;
use metrics_stream::session::{read, Action, Category, Event, Refresh, Session};
use sysinfo::{CpuExt, DiskExt, System, SystemExt};

fn refreshed() -> System {
    let mut sys = System::new_all();
    sys.refresh_cpu();
    sys.refresh_memory();
    sys.refresh_disks();
    sys
}

#[test]
fn cpu_data_is_what_the_handle_holds() {
    let sys = refreshed();
    let held: Vec<u32> = sys.cpus().iter().map(|cpu| cpu.cpu_usage().to_bits()).collect();
    let reading = cpu_data(&sys);
    assert_eq!(reading.cores(), sys.cpus().len());
    assert_eq!(reading.usages, held);
    assert_eq!(cpu_data(&sys), reading);
}

#[test]
fn cpu_data_lies_between_0_and_100() {
    let mut sys = System::new_all();
    for _ in 0..3 {
        sys.refresh_cpu();
        let reading = cpu_data(&sys);
        assert!(reading.in_range());
        for bits in &reading.usages {
            let value = f32::from_bits(*bits);
            assert!((0.0..=100.0).contains(&value), "{value}");
        }
    }
}

#[test]
fn ram_data_is_what_the_handle_holds() {
    let sys = refreshed();
    if sys.available_memory() <= sys.total_memory() {
        let reading = ram_data(&sys).expect("consistent counters");
        assert_eq!(reading.total, sys.total_memory());
        assert_eq!(reading.used, sys.used_memory());
        assert_eq!(reading.free, sys.free_memory());
        assert!(reading.total > 0);
    } else {
        assert_eq!(ram_data(&sys), Err(Inconsistent::Memory));
    }
}

#[test]
fn swap_data_is_what_the_handle_holds() {
    let sys = refreshed();
    if sys.free_swap() <= sys.total_swap() {
        let reading = swap_data(&sys).expect("consistent counters");
        assert_eq!(reading.total, sys.total_swap());
        assert_eq!(reading.used, sys.used_swap());
        assert_eq!(reading.free, sys.free_swap());
    } else {
        assert_eq!(swap_data(&sys), Err(Inconsistent::Swap));
    }
}

#[test]
fn disk_data_is_that_of_the_second_disk() {
    let sys = refreshed();
    let outcome = disk_data(&sys);
    match sys.disks().get(1) {
        None => assert_eq!(outcome, Ok(None)),
        Some(disk) if disk.available_space() <= disk.total_space() => {
            let reading = outcome.expect("consistent disk").expect("second disk");
            assert_eq!(reading.total(), disk.total_space());
            assert_eq!(reading.available(), disk.available_space());
            assert_eq!(reading.used(), disk.total_space() - disk.available_space());
        }
        Some(_) => assert_eq!(outcome, Err(Inconsistent::Disk)),
    }
}

#[test]
fn reading_twice_gives_the_same() {
    let sys = refreshed();
    assert_eq!(cpu_data(&sys), cpu_data(&sys));
    assert_eq!(ram_data(&sys), ram_data(&sys));
    assert_eq!(swap_data(&sys), swap_data(&sys));
    assert_eq!(disk_data(&sys), disk_data(&sys));
}

#[test]
fn every_category_has_its_refresh() {
    assert_eq!(Category::Cpu.refresh(), Refresh::Cpu);
    assert_eq!(Category::Ram.refresh(), Refresh::Memory);
    assert_eq!(Category::Swap.refresh(), Refresh::Memory);
    assert_eq!(Category::Disk.refresh(), Refresh::Disks);
}

#[test]
fn read_answers_with_the_event_of_its_category() {
    let sys = refreshed();
    assert_eq!(read(&sys, Category::Cpu), Ok(Event::Cpu(cpu_data(&sys))));
    assert_eq!(read(&sys, Category::Ram), ram_data(&sys).map(Event::Ram));
    assert_eq!(read(&sys, Category::Swap), swap_data(&sys).map(Event::Swap));
    assert_eq!(read(&sys, Category::Disk), disk_data(&sys).map(Event::Disk));
}

#[test]
fn session_driven_by_the_provider_reaches_the_push() {
    let mut sys = System::new_all();
    let mut session = Session::new().step(Event::Tick);
    let mut asked = Vec::new();
    while let Action::Read(category) = session.pending() {
        asked.push(category);
        match category.refresh() {
            Refresh::Cpu => sys.refresh_cpu(),
            Refresh::Memory => sys.refresh_memory(),
            Refresh::Disks => sys.refresh_disks(),
        }
        match read(&sys, category) {
            Ok(event) => session = session.step(event),
            Err(_) => return,
        }
    }
    assert_eq!(asked, vec![Category::Cpu, Category::Ram, Category::Swap, Category::Disk]);
    assert_eq!(session.pending(), Action::Push);
    let payload = session.payload().expect("payload");
    assert_eq!(payload.cpu.cores(), sys.cpus().len());
    assert_eq!(payload.ram.total, sys.total_memory());
    assert_eq!(payload.sections().len(), 4);
}

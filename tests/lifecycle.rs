use ir0_drivers::descriptor::{DriverInfo, DriverLang, DriverState, PortWrite};
use ir0_drivers::example_driver::{
    example_driver_info, example_driver_ops, register_rust_example_driver, rust_example_init,
    rust_example_probe, rust_example_read, rust_example_remove, rust_example_shutdown,
    rust_example_write, ExampleDriver, EXAMPLE_BUFFER_SIZE, EXAMPLE_DEVICE_PORT,
    EXAMPLE_WRITE_CAPACITY,
};
use ir0_drivers::module::DriverModule;
use ir0_drivers::registry::{error_status, DriverRegistry};
use ir0_drivers::simple_driver::{
    register_rust_simple_driver, rust_simple_init, rust_simple_shutdown, simple_driver_info,
    simple_driver_ops, SimpleDriver,
};
use ir0_drivers::status::{
    fault_message, DriverSlot, DriverStatus, FaultReport, IR0_DRIVER_ERR, IR0_DRIVER_ERR_FAULT, IR0_DRIVER_ERR_INVAL,
    IR0_DRIVER_OK,
};

fn info(name: &str) -> DriverInfo {
    DriverInfo {
        name: name.to_string(),
        version: "1.0.0".to_string(),
        author: "tests".to_string(),
        description: "test driver".to_string(),
        language: DriverLang::Rust,
    }
}

fn kernel_buffer() -> Option<Vec<u8>> {
    Some(vec![0u8; EXAMPLE_BUFFER_SIZE])
}

#[test]
fn disk0_full_lifecycle() {
    let mut reg: DriverRegistry<ExampleDriver> = DriverRegistry::new();
    let h = reg.register(info("disk0"), example_driver_ops(), ExampleDriver::new()).unwrap();
    assert_eq!(reg.state(h), Ok(DriverState::Registered));
    assert_eq!(reg.init(h, kernel_buffer()), Ok(()));
    assert_eq!(reg.state(h), Ok(DriverState::Initialized));
    let buf = [1u8, 2, 3, 4];
    assert_eq!(reg.write(h, Some(&buf), 4), Ok(4));
    assert_eq!(reg.shutdown(h), Ok(()));
    assert_eq!(reg.state(h), Ok(DriverState::Registered));
    assert!(reg.unregister(h).is_ok());
    assert_eq!(reg.find("disk0"), Err(DriverStatus::NotFound));
    assert_eq!(reg.len(), 0);
}

#[test]
fn duplicate_name_keeps_first_registration() {
    let mut reg: DriverRegistry<ExampleDriver> = DriverRegistry::new();
    let first = reg.register(info("x"), example_driver_ops(), ExampleDriver::new()).unwrap();
    let second = reg.register(info("x"), example_driver_ops(), ExampleDriver::new());
    assert_eq!(second, Err(DriverStatus::AlreadyExists));
    assert_eq!(reg.len(), 1);
    assert_eq!(reg.find("x"), Ok(first));
    assert_eq!(reg.init(first, kernel_buffer()), Ok(()));
    let buf = [9u8, 8];
    assert_eq!(reg.write(first, Some(&buf), 2), Ok(2));
}

#[test]
fn duplicate_name_leaves_existing_state() {
    let mut reg: DriverRegistry<ExampleDriver> = DriverRegistry::new();
    let h = reg.register(info("net0"), example_driver_ops(), ExampleDriver::new()).unwrap();
    assert_eq!(reg.init(h, kernel_buffer()), Ok(()));
    assert_eq!(reg.probe(h, Some(7)), Ok(()));
    assert_eq!(reg.state(h), Ok(DriverState::Active));
    let again = reg.register(info("net0"), example_driver_ops(), ExampleDriver::new());
    assert_eq!(again, Err(DriverStatus::AlreadyExists));
    assert_eq!(reg.state(h), Ok(DriverState::Active));
    assert!(reg.driver(h).unwrap().initialized);
}

#[test]
fn transfer_before_init_fails_without_port_access() {
    let mut drv = ExampleDriver::new();
    let data = [1u8, 2, 3];
    assert_eq!(rust_example_write(&mut drv, Some(&data), 3), IR0_DRIVER_ERR);
    let mut into = [0u8; 3];
    assert_eq!(rust_example_read(&drv, Some(&mut into), 3), IR0_DRIVER_ERR);
    assert!(drv.port_out.is_empty());
    assert!(!drv.initialized);

    let mut reg: DriverRegistry<ExampleDriver> = DriverRegistry::new();
    let h = reg.register(info("early"), example_driver_ops(), ExampleDriver::new()).unwrap();
    assert_eq!(reg.write(h, Some(&data), 3), Err(DriverStatus::GenericError));
    assert_eq!(reg.read(h, Some(&mut into), 3), Err(DriverStatus::GenericError));
    assert!(reg.driver(h).unwrap().port_out.is_empty());
    assert_eq!(reg.state(h), Ok(DriverState::Registered));
}

#[test]
fn missing_buffer_is_invalid_argument() {
    let mut drv = ExampleDriver::new();
    assert_eq!(rust_example_init(&mut drv, kernel_buffer()), IR0_DRIVER_OK);
    assert_eq!(rust_example_write(&mut drv, None, 4), IR0_DRIVER_ERR_INVAL);
    assert_eq!(rust_example_read(&drv, None, 4), IR0_DRIVER_ERR_INVAL);

    let mut reg: DriverRegistry<ExampleDriver> = DriverRegistry::new();
    let h = reg.register(info("nul"), example_driver_ops(), ExampleDriver::new()).unwrap();
    assert_eq!(reg.init(h, kernel_buffer()), Ok(()));
    assert_eq!(reg.write(h, None, 4), Err(DriverStatus::InvalidArgument));
    assert_eq!(reg.read(h, None, 4), Err(DriverStatus::InvalidArgument));
    assert_eq!(reg.state(h), Ok(DriverState::Initialized));
}

#[test]
fn shutdown_twice_is_safe() {
    let mut drv = ExampleDriver::new();
    assert_eq!(rust_example_init(&mut drv, kernel_buffer()), IR0_DRIVER_OK);
    rust_example_shutdown(&mut drv);
    rust_example_shutdown(&mut drv);
    assert!(!drv.initialized);
    assert!(drv.buffer.is_none());

    let mut reg: DriverRegistry<ExampleDriver> = DriverRegistry::new();
    let h = reg.register(info("twice"), example_driver_ops(), ExampleDriver::new()).unwrap();
    assert_eq!(reg.init(h, kernel_buffer()), Ok(()));
    assert_eq!(reg.shutdown(h), Ok(()));
    assert_eq!(reg.shutdown(h), Ok(()));
    assert_eq!(reg.state(h), Ok(DriverState::Registered));
}

#[test]
fn shutdown_of_never_initialized_driver() {
    let mut reg: DriverRegistry<ExampleDriver> = DriverRegistry::new();
    let h = reg.register(info("idle"), example_driver_ops(), ExampleDriver::new()).unwrap();
    assert_eq!(reg.shutdown(h), Ok(()));
    assert_eq!(reg.state(h), Ok(DriverState::Registered));
}

#[test]
fn probe_without_device_changes_nothing() {
    let drv = ExampleDriver::new();
    assert_eq!(rust_example_probe(&drv, None), IR0_DRIVER_ERR_INVAL);
    assert_eq!(rust_example_probe(&drv, Some(1)), IR0_DRIVER_OK);

    let mut reg: DriverRegistry<ExampleDriver> = DriverRegistry::new();
    let h = reg.register(info("probe"), example_driver_ops(), ExampleDriver::new()).unwrap();
    assert_eq!(reg.init(h, kernel_buffer()), Ok(()));
    assert_eq!(reg.probe(h, None), Err(DriverStatus::InvalidArgument));
    assert_eq!(reg.state(h), Ok(DriverState::Initialized));
    assert_eq!(reg.probe(h, Some(3)), Ok(()));
    assert_eq!(reg.state(h), Ok(DriverState::Active));
    assert_eq!(reg.probe(h, None), Err(DriverStatus::InvalidArgument));
    assert_eq!(reg.state(h), Ok(DriverState::Active));
}

#[test]
fn probe_before_init_is_refused() {
    let mut reg: DriverRegistry<ExampleDriver> = DriverRegistry::new();
    let h = reg.register(info("early_probe"), example_driver_ops(), ExampleDriver::new()).unwrap();
    assert_eq!(reg.probe(h, Some(1)), Err(DriverStatus::GenericError));
    assert_eq!(reg.state(h), Ok(DriverState::Registered));
}

#[test]
fn write_longer_than_capacity_is_capped() {
    let mut drv = ExampleDriver::new();
    assert_eq!(rust_example_init(&mut drv, kernel_buffer()), IR0_DRIVER_OK);
    drv.take_port_writes();
    let data: Vec<u8> = (0..100u8).collect();
    assert_eq!(rust_example_write(&mut drv, Some(&data), 100), EXAMPLE_WRITE_CAPACITY as i32);
    let sent = drv.take_port_writes();
    assert_eq!(sent.len(), EXAMPLE_WRITE_CAPACITY);
    for (i, w) in sent.iter().enumerate() {
        assert_eq!(*w, PortWrite { port: EXAMPLE_DEVICE_PORT, value: i as u8 });
    }
}

#[test]
fn write_never_passes_the_buffer() {
    let mut drv = ExampleDriver::new();
    assert_eq!(rust_example_init(&mut drv, kernel_buffer()), IR0_DRIVER_OK);
    let data = [5u8; 10];
    assert_eq!(rust_example_write(&mut drv, Some(&data), 100), 10);
    assert_eq!(drv.port_out.len(), 11);

    let mut reg: DriverRegistry<ExampleDriver> = DriverRegistry::new();
    let h = reg.register(info("cap"), example_driver_ops(), ExampleDriver::new()).unwrap();
    assert_eq!(reg.init(h, kernel_buffer()), Ok(()));
    let big = [1u8; 200];
    assert_eq!(reg.write(h, Some(&big), 150), Ok(64));
    assert_eq!(reg.write(h, Some(&data), 150), Ok(10));
}

#[test]
fn read_reports_bounded_count() {
    let mut drv = ExampleDriver::new();
    assert_eq!(rust_example_init(&mut drv, kernel_buffer()), IR0_DRIVER_OK);
    let mut into = [0u8; 8];
    assert_eq!(rust_example_read(&drv, Some(&mut into), 5), 5);
    assert_eq!(rust_example_read(&drv, Some(&mut into), 50), 8);

    let mut reg: DriverRegistry<ExampleDriver> = DriverRegistry::new();
    let h = reg.register(info("rd"), example_driver_ops(), ExampleDriver::new()).unwrap();
    assert_eq!(reg.init(h, kernel_buffer()), Ok(()));
    assert_eq!(reg.read(h, Some(&mut into), 3), Ok(3));
}

#[test]
fn init_resets_the_device_port() {
    let mut drv = ExampleDriver::new();
    assert_eq!(drv.device_port, EXAMPLE_DEVICE_PORT);
    assert_eq!(rust_example_init(&mut drv, kernel_buffer()), IR0_DRIVER_OK);
    assert!(drv.initialized);
    assert_eq!(drv.buffer.as_ref().map(|b| b.len()), Some(EXAMPLE_BUFFER_SIZE));
    let sent = drv.take_port_writes();
    assert_eq!(sent, vec![PortWrite { port: EXAMPLE_DEVICE_PORT, value: 0 }]);
    assert!(drv.port_out.is_empty());
    assert!(drv.initialized);
}

#[test]
fn failed_allocation_fails_init() {
    let mut drv = ExampleDriver::new();
    assert_eq!(rust_example_init(&mut drv, None), IR0_DRIVER_ERR);
    assert!(!drv.initialized);
    assert!(drv.port_out.is_empty());

    let mut reg: DriverRegistry<ExampleDriver> = DriverRegistry::new();
    let h = reg.register(info("nomem"), example_driver_ops(), ExampleDriver::new()).unwrap();
    assert_eq!(reg.init(h, None), Err(DriverStatus::GenericError));
    assert_eq!(reg.state(h), Ok(DriverState::Failed));
    let data = [1u8];
    assert_eq!(reg.write(h, Some(&data), 1), Err(DriverStatus::GenericError));
    assert_eq!(reg.init(h, kernel_buffer()), Err(DriverStatus::GenericError));
    assert_eq!(reg.shutdown(h), Ok(()));
    assert_eq!(reg.state(h), Ok(DriverState::Failed));
    assert!(reg.unregister(h).is_ok());
    assert_eq!(reg.find("nomem"), Err(DriverStatus::NotFound));
}

#[test]
fn init_runs_once() {
    let mut reg: DriverRegistry<ExampleDriver> = DriverRegistry::new();
    let h = reg.register(info("once"), example_driver_ops(), ExampleDriver::new()).unwrap();
    assert_eq!(reg.init(h, kernel_buffer()), Ok(()));
    assert_eq!(reg.init(h, kernel_buffer()), Err(DriverStatus::GenericError));
    assert_eq!(reg.state(h), Ok(DriverState::Initialized));
}

#[test]
fn unregister_active_driver_shuts_it_down() {
    let mut reg: DriverRegistry<ExampleDriver> = DriverRegistry::new();
    let h = reg.register(info("act"), example_driver_ops(), ExampleDriver::new()).unwrap();
    assert_eq!(reg.init(h, kernel_buffer()), Ok(()));
    assert_eq!(reg.probe(h, Some(1)), Ok(()));
    assert_eq!(reg.state(h), Ok(DriverState::Active));
    let drv = reg.unregister(h).unwrap();
    assert!(!drv.initialized);
    assert!(drv.buffer.is_none());
    assert_eq!(reg.find("act"), Err(DriverStatus::NotFound));
    assert_eq!(reg.state(h), Err(DriverStatus::NotFound));
    assert_eq!(reg.unregister(h).err(), Some(DriverStatus::NotFound));
}

#[test]
fn stale_handle_is_not_found() {
    let mut reg: DriverRegistry<ExampleDriver> = DriverRegistry::new();
    let h = reg.register(info("gone"), example_driver_ops(), ExampleDriver::new()).unwrap();
    assert!(reg.unregister(h).is_ok());
    let other = reg.register(info("gone"), example_driver_ops(), ExampleDriver::new()).unwrap();
    assert_ne!(other, h);
    assert_eq!(reg.init(h, kernel_buffer()), Err(DriverStatus::NotFound));
    assert_eq!(reg.probe(h, Some(1)), Err(DriverStatus::NotFound));
    assert_eq!(reg.remove(h, Some(1)), Err(DriverStatus::NotFound));
    assert_eq!(reg.shutdown(h), Err(DriverStatus::NotFound));
    assert_eq!(reg.write(h, None, 0), Err(DriverStatus::NotFound));
    assert_eq!(reg.ioctl(h, 1, 2), Err(DriverStatus::NotFound));
    assert_eq!(reg.driver(h).err(), Some(DriverStatus::NotFound));
    assert_eq!(reg.find("gone"), Ok(other));
}

#[test]
fn unset_slots_are_unsupported() {
    let mut reg: DriverRegistry<ExampleDriver> = DriverRegistry::new();
    let h = reg.register(info("slots"), example_driver_ops(), ExampleDriver::new()).unwrap();
    assert_eq!(reg.init(h, kernel_buffer()), Ok(()));
    assert_eq!(reg.ioctl(h, 1, 0), Err(DriverStatus::Unsupported));
    assert_eq!(reg.suspend(h), Err(DriverStatus::Unsupported));
    assert_eq!(reg.resume(h), Err(DriverStatus::Unsupported));
    assert_eq!(reg.remove(h, Some(1)), Ok(()));
    assert_eq!(reg.state(h), Ok(DriverState::Initialized));
}

#[test]
fn initialized_driver_cannot_register() {
    let mut drv = ExampleDriver::new();
    assert_eq!(rust_example_init(&mut drv, kernel_buffer()), IR0_DRIVER_OK);
    let mut reg: DriverRegistry<ExampleDriver> = DriverRegistry::new();
    assert_eq!(
        reg.register(info("hot"), example_driver_ops(), drv),
        Err(DriverStatus::InvalidArgument)
    );
    assert_eq!(reg.len(), 0);
}

#[test]
fn example_driver_registers_under_its_name() {
    let mut reg: DriverRegistry<ExampleDriver> = DriverRegistry::new();
    let h = register_rust_example_driver(&mut reg).unwrap();
    assert_eq!(reg.find("rust_example"), Ok(h));
    assert_eq!(register_rust_example_driver(&mut reg), Err(DriverStatus::AlreadyExists));
    let i = example_driver_info();
    assert_eq!(i.name, "rust_example");
    assert_eq!(i.version, "1.0.0");
    assert_eq!(i.language.tag(), 2);
    let ops = example_driver_ops();
    assert!(ops.init && ops.probe && ops.remove && ops.shutdown && ops.read && ops.write);
    assert!(!ops.ioctl && !ops.suspend && !ops.resume);
}

#[test]
fn example_remove_keeps_state() {
    let mut drv = ExampleDriver::new();
    assert_eq!(rust_example_init(&mut drv, kernel_buffer()), IR0_DRIVER_OK);
    rust_example_remove(&drv, Some(1));
    rust_example_remove(&drv, None);
    assert!(drv.initialized);
}

#[test]
fn simple_driver_is_active_after_init() {
    let mut reg: DriverRegistry<SimpleDriver> = DriverRegistry::new();
    let h = register_rust_simple_driver(&mut reg).unwrap();
    assert_eq!(reg.find("rust_simple"), Ok(h));
    assert_eq!(reg.init(h, None), Ok(()));
    assert_eq!(reg.state(h), Ok(DriverState::Active));
    let data = [1u8];
    assert_eq!(reg.write(h, Some(&data), 1), Err(DriverStatus::Unsupported));
    assert_eq!(reg.probe(h, Some(1)), Err(DriverStatus::Unsupported));
    assert_eq!(reg.shutdown(h), Ok(()));
    assert_eq!(reg.state(h), Ok(DriverState::Registered));
    assert!(!reg.driver(h).unwrap().initialized);
}

#[test]
fn simple_driver_operations() {
    let mut drv = SimpleDriver::new();
    assert!(!drv.initialized);
    assert_eq!(rust_simple_init(&mut drv), IR0_DRIVER_OK);
    assert!(drv.is_initialized());
    rust_simple_shutdown(&mut drv);
    assert!(!drv.initialized);
    assert_eq!(simple_driver_info().name, "rust_simple");
    let ops = simple_driver_ops();
    assert!(ops.init && ops.shutdown);
    assert!(!ops.probe && !ops.read && !ops.write && !ops.remove);
}

#[test]
fn status_codes_round_trip() {
    let all = [
        DriverStatus::Success,
        DriverStatus::GenericError,
        DriverStatus::OutOfMemory,
        DriverStatus::InvalidArgument,
        DriverStatus::AlreadyExists,
        DriverStatus::NotFound,
        DriverStatus::Unsupported,
        DriverStatus::DriverFault(None),
    ];
    for s in all.iter() {
        assert_eq!(DriverStatus::from_code(s.code()), *s);
    }
    assert_eq!(DriverStatus::InvalidArgument.code(), -3);
    assert_eq!(DriverStatus::DriverFault(None).code(), IR0_DRIVER_ERR_FAULT);
    assert_eq!(DriverStatus::from_code(IR0_DRIVER_ERR_FAULT), DriverStatus::DriverFault(None));
    assert_eq!(DriverStatus::from_code(-42), DriverStatus::GenericError);
    assert_eq!(DriverStatus::from_code(7), DriverStatus::GenericError);
}

#[test]
fn fault_messages() {
    assert_eq!(fault_message(true), "Rust driver panic");
    assert_eq!(fault_message(false), "Rust driver panic (no location)");
}

#[test]
fn language_tags() {
    assert_eq!(DriverLang::C.tag(), 0);
    assert_eq!(DriverLang::Cpp.tag(), 1);
    assert_eq!(DriverLang::Rust.tag(), 2);
}

#[test]
fn read_leaves_the_buffer_alone() {
    let mut drv = ExampleDriver::new();
    let mut b = [0u8; 4];
    assert_eq!(rust_example_read(&drv, Some(&mut b), 4), IR0_DRIVER_ERR);
    assert_eq!(b, [0u8; 4]);
    assert_eq!(rust_example_init(&mut drv, kernel_buffer()), IR0_DRIVER_OK);
    let mut c = [7u8, 8, 9];
    assert_eq!(rust_example_read(&drv, Some(&mut c), 2), 2);
    assert_eq!(c, [7u8, 8, 9]);

    let mut reg: DriverRegistry<ExampleDriver> = DriverRegistry::new();
    let h = reg.register(info("rbuf"), example_driver_ops(), ExampleDriver::new()).unwrap();
    assert_eq!(reg.read(h, Some(&mut c), 3), Err(DriverStatus::GenericError));
    assert_eq!(reg.init(h, kernel_buffer()), Ok(()));
    assert_eq!(reg.read(h, Some(&mut c), 3), Ok(3));
    assert_eq!(c, [7u8, 8, 9]);
}

#[test]
fn error_status_reports_faulting_driver() {
    let mut reg: DriverRegistry<ExampleDriver> = DriverRegistry::new();
    let h = reg.register(info("f"), example_driver_ops(), ExampleDriver::new()).unwrap();
    assert_eq!(
        error_status(IR0_DRIVER_ERR_FAULT, h, DriverSlot::Write),
        DriverStatus::DriverFault(Some(FaultReport { driver: h, slot: DriverSlot::Write }))
    );
    assert_eq!(error_status(IR0_DRIVER_ERR_INVAL, h, DriverSlot::Read), DriverStatus::InvalidArgument);
    assert_eq!(error_status(-2, h, DriverSlot::Init), DriverStatus::OutOfMemory);
}

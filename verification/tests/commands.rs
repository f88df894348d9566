use esp_i2c::{
    add_cmd, set_filter, Ack, BusTimeout, Command, CommandList, Config, ConfigError, Driver,
    Error, I2cAddress, Info, InterruptFlags, OperationType, Peripheral, RegisterWrite, Variant,
};

fn driver(variant: Variant) -> Driver {
    Driver { info: Info::new(variant, Peripheral::I2cExt0) }
}

fn write_command(length: u8) -> Command {
    Command::Write { ack_exp: Ack::Ack, ack_check_en: true, length }
}

fn read_command(ack_value: Ack, length: u8) -> Command {
    Command::Read { ack_value, length }
}

fn commands_of(regs: &[RegisterWrite]) -> Vec<(usize, Command)> {
    regs.iter()
        .filter_map(|write| match write {
            RegisterWrite::Command { index, command } => Some((*index, *command)),
            _ => None,
        })
        .collect()
}

fn fifo_reset(variant: Variant) -> Vec<RegisterWrite> {
    let none = InterruptFlags::none();
    if variant == Variant::Esp32 {
        vec![
            RegisterWrite::FifoReset { protect: false, rx_threshold: 1, tx_threshold: 32 },
            RegisterWrite::FifoRelease,
            RegisterWrite::InterruptClear(InterruptFlags { rxfifo_full: true, ..none }),
        ]
    } else {
        let mut writes = vec![
            RegisterWrite::FifoReset { protect: true, rx_threshold: 1, tx_threshold: 8 },
            RegisterWrite::FifoRelease,
            RegisterWrite::InterruptClear(InterruptFlags {
                rxfifo_wm: true,
                txfifo_wm: true,
                ..none
            }),
        ];
        if variant != Variant::Esp32S2 {
            writes.push(RegisterWrite::ConfigUpdate);
        }
        writes
    }
}

fn command_list_reset(variant: Variant) -> Vec<RegisterWrite> {
    let slots = if variant == Variant::Esp32 || variant == Variant::Esp32S2 { 16 } else { 8 };
    (0..slots).map(RegisterWrite::CommandReset).collect()
}

fn full_reset(variant: Variant) -> Vec<RegisterWrite> {
    let mut writes = Vec::new();
    if variant != Variant::Esp32 {
        writes.push(RegisterWrite::FsmReset);
    }
    let mask = if variant == Variant::Esp32S2 { 0x1ffff } else { 0x3ffff };
    writes.push(RegisterWrite::InterruptClearMask(mask));
    writes.extend(fifo_reset(variant));
    writes.extend(command_list_reset(variant));
    writes
}

#[test]
fn ninth_command_of_eight_slots_is_refused() {
    let mut list = CommandList::new(8);
    let mut regs = Vec::new();
    for i in 0..8u8 {
        assert_eq!(add_cmd(&mut list, write_command(i + 1), &mut regs), Ok(()));
    }
    assert_eq!(list.len(), 8);
    let queued = regs.clone();
    assert_eq!(add_cmd(&mut list, Command::Stop, &mut regs), Err(Error::CommandNumberExceeded));
    assert_eq!(add_cmd(&mut list, Command::End, &mut regs), Err(Error::CommandNumberExceeded));
    assert_eq!(list.len(), 8);
    assert_eq!(regs, queued);
    for i in 0..8 {
        assert_eq!(list.get(i), Some(write_command(i as u8 + 1)));
        assert_eq!(
            regs[i],
            RegisterWrite::Command { index: i, command: write_command(i as u8 + 1) }
        );
    }
    assert_eq!(list.get(8), None);
}

#[test]
fn command_list_without_slots_takes_nothing() {
    let mut list = CommandList::new(0);
    let mut regs = Vec::new();
    assert_eq!(add_cmd(&mut list, Command::Start, &mut regs), Err(Error::CommandNumberExceeded));
    assert_eq!(list.len(), 0);
    assert!(regs.is_empty());
}

#[test]
fn commands_go_into_consecutive_slots() {
    let mut list = CommandList::new(3);
    let mut regs = vec![RegisterWrite::TransStart];
    assert_eq!(add_cmd(&mut list, Command::Start, &mut regs), Ok(()));
    assert_eq!(add_cmd(&mut list, read_command(Ack::Nack, 1), &mut regs), Ok(()));
    assert_eq!(add_cmd(&mut list, Command::Stop, &mut regs), Ok(()));
    assert_eq!(
        regs,
        vec![
            RegisterWrite::TransStart,
            RegisterWrite::Command { index: 0, command: Command::Start },
            RegisterWrite::Command { index: 1, command: read_command(Ack::Nack, 1) },
            RegisterWrite::Command { index: 2, command: Command::Stop },
        ]
    );
}

#[test]
fn ack_levels() {
    assert_eq!(Ack::Ack.level(), 0);
    assert_eq!(Ack::Nack.level(), 1);
    assert_eq!(Ack::from_level(0), Some(Ack::Ack));
    assert_eq!(Ack::from_level(1), Some(Ack::Nack));
    assert_eq!(Ack::from_level(2), None);
    assert_eq!(Ack::from_level(u32::MAX), None);
}

#[test]
fn address_byte_carries_the_direction() {
    let address = I2cAddress::SevenBit(0b011_0010);
    assert_eq!(address.wire_byte(OperationType::Write), 0x64);
    assert_eq!(address.wire_byte(OperationType::Read), 0x65);
    assert_eq!(I2cAddress::from(0x77), I2cAddress::SevenBit(0x77));
    assert_eq!(I2cAddress::SevenBit(0x7F).wire_byte(OperationType::Read), 0xFF);
    assert_eq!(I2cAddress::SevenBit(0).wire_byte(OperationType::Write), 0);
    assert_eq!(OperationType::Write.bit(), 0);
    assert_eq!(OperationType::Read.bit(), 1);
}

#[test]
fn setup_write_with_start_counts_the_address_byte() {
    let d = driver(Variant::Esp32C3);
    let mut list = CommandList::new(8);
    let mut regs = Vec::new();
    let r = d.setup_write(I2cAddress::SevenBit(0x20), &[1, 2, 3], true, &mut list, &mut regs);
    assert_eq!(r, Ok(()));
    assert_eq!(
        regs,
        vec![
            RegisterWrite::Command { index: 0, command: write_command(4) },
            RegisterWrite::ConfigUpdate,
            RegisterWrite::FifoData(0x40),
        ]
    );
    assert_eq!(list.get(0), Some(write_command(4)));
    assert_eq!(list.len(), 1);
}

#[test]
fn setup_write_without_start_sends_the_payload_alone() {
    let d = driver(Variant::Esp32);
    let mut list = CommandList::new(16);
    let mut regs = Vec::new();
    assert_eq!(add_cmd(&mut list, Command::Start, &mut regs), Ok(()));
    let r = d.setup_write(I2cAddress::SevenBit(0x20), &[9; 5], false, &mut list, &mut regs);
    assert_eq!(r, Ok(()));
    assert_eq!(
        regs,
        vec![
            RegisterWrite::Command { index: 0, command: Command::Start },
            RegisterWrite::Command { index: 1, command: write_command(5) },
        ]
    );
}

#[test]
fn setup_write_of_nothing_without_start_issues_no_command() {
    let d = driver(Variant::Esp32S3);
    let mut list = CommandList::new(8);
    let mut regs = Vec::new();
    assert_eq!(d.setup_write(I2cAddress::SevenBit(1), &[], false, &mut list, &mut regs), Ok(()));
    assert_eq!(list.len(), 0);
    assert_eq!(regs, vec![RegisterWrite::ConfigUpdate]);
    // With a start the address byte is probed.
    assert_eq!(d.setup_write(I2cAddress::SevenBit(1), &[], true, &mut list, &mut regs), Ok(()));
    assert_eq!(list.get(0), Some(write_command(1)));
}

#[test]
fn setup_write_limits() {
    let d = driver(Variant::Esp32C6);
    let address = I2cAddress::SevenBit(0x10);
    let mut list = CommandList::new(8);
    let mut regs = Vec::new();
    assert_eq!(
        d.setup_write(address, &[0; 255], true, &mut list, &mut regs),
        Err(Error::FifoExceeded)
    );
    assert_eq!(
        d.setup_write(address, &[0; 256], false, &mut list, &mut regs),
        Err(Error::FifoExceeded)
    );
    assert!(regs.is_empty());
    assert_eq!(list.len(), 0);
    assert_eq!(d.setup_write(address, &[0; 254], true, &mut list, &mut regs), Ok(()));
    assert_eq!(list.get(0), Some(write_command(255)));
    assert_eq!(d.setup_write(address, &[0; 255], false, &mut list, &mut regs), Ok(()));
    assert_eq!(list.get(1), Some(write_command(255)));
}

#[test]
fn setup_write_into_a_full_list_changes_nothing() {
    let d = driver(Variant::Esp32C6);
    let mut list = CommandList::new(1);
    let mut regs = Vec::new();
    assert_eq!(add_cmd(&mut list, Command::Start, &mut regs), Ok(()));
    let queued = regs.clone();
    assert_eq!(
        d.setup_write(I2cAddress::SevenBit(0x10), &[1], true, &mut list, &mut regs),
        Err(Error::CommandNumberExceeded)
    );
    assert_eq!(regs, queued);
    assert_eq!(list.len(), 1);
}

#[test]
fn setup_read_that_ends_the_reading_splits_off_the_last_byte() {
    let d = driver(Variant::Esp32C3);
    let mut list = CommandList::new(8);
    let mut regs = Vec::new();
    assert_eq!(d.setup_read(I2cAddress::SevenBit(0x20), 4, true, false, &mut list, &mut regs), Ok(()));
    assert_eq!(
        regs,
        vec![
            RegisterWrite::Command { index: 0, command: write_command(1) },
            RegisterWrite::Command { index: 1, command: read_command(Ack::Ack, 3) },
            RegisterWrite::Command { index: 2, command: read_command(Ack::Nack, 1) },
            RegisterWrite::ConfigUpdate,
            RegisterWrite::FifoData(0x41),
        ]
    );
}

#[test]
fn setup_read_that_continues_acknowledges_every_byte() {
    let d = driver(Variant::Esp32);
    let mut list = CommandList::new(16);
    let mut regs = Vec::new();
    assert_eq!(d.setup_read(I2cAddress::SevenBit(0x20), 4, false, true, &mut list, &mut regs), Ok(()));
    assert_eq!(
        regs,
        vec![RegisterWrite::Command { index: 0, command: read_command(Ack::Ack, 4) }]
    );
}

#[test]
fn setup_read_of_one_last_byte_has_no_acknowledged_part() {
    let d = driver(Variant::Esp32S2);
    let mut list = CommandList::new(16);
    let mut regs = Vec::new();
    assert_eq!(d.setup_read(I2cAddress::SevenBit(0x20), 1, false, false, &mut list, &mut regs), Ok(()));
    assert_eq!(
        regs,
        vec![RegisterWrite::Command { index: 0, command: read_command(Ack::Nack, 1) }]
    );
}

#[test]
fn setup_read_limits() {
    let d = driver(Variant::Esp32H2);
    let address = I2cAddress::SevenBit(0x10);
    let mut list = CommandList::new(8);
    let mut regs = Vec::new();
    assert_eq!(
        d.setup_read(address, 0, true, false, &mut list, &mut regs),
        Err(Error::ZeroLengthInvalid)
    );
    assert_eq!(
        d.setup_read(address, 0, false, true, &mut list, &mut regs),
        Err(Error::ZeroLengthInvalid)
    );
    assert_eq!(
        d.setup_read(address, 255, false, false, &mut list, &mut regs),
        Err(Error::FifoExceeded)
    );
    assert_eq!(
        d.setup_read(address, 256, false, true, &mut list, &mut regs),
        Err(Error::FifoExceeded)
    );
    assert!(regs.is_empty());
    assert_eq!(d.setup_read(address, 254, false, false, &mut list, &mut regs), Ok(()));
    assert_eq!(list.get(0), Some(read_command(Ack::Ack, 253)));
    assert_eq!(list.get(1), Some(read_command(Ack::Nack, 1)));
    assert_eq!(d.setup_read(address, 255, false, true, &mut list, &mut regs), Ok(()));
    assert_eq!(list.get(2), Some(read_command(Ack::Ack, 255)));
}

#[test]
fn setup_read_keeps_the_commands_that_fit() {
    let d = driver(Variant::Esp32C3);
    let mut list = CommandList::new(2);
    let mut regs = Vec::new();
    assert_eq!(
        d.setup_read(I2cAddress::SevenBit(0x20), 4, true, false, &mut list, &mut regs),
        Err(Error::CommandNumberExceeded)
    );
    assert_eq!(
        regs,
        vec![
            RegisterWrite::Command { index: 0, command: write_command(1) },
            RegisterWrite::Command { index: 1, command: read_command(Ack::Ack, 3) },
        ]
    );
    assert_eq!(list.len(), 2);
}

#[test]
fn start_write_operation_on_a_fifo_limited_family_pushes_the_payload() {
    let d = driver(Variant::Esp32);
    let mut regs = Vec::new();
    let r = d.start_write_operation(I2cAddress::SevenBit(0x20), &[0xAA, 0xBB], true, true, &mut regs);
    assert_eq!(r, Ok(2));
    let mut expected = fifo_reset(Variant::Esp32);
    expected.extend(command_list_reset(Variant::Esp32));
    expected.extend([
        RegisterWrite::Command { index: 0, command: Command::Start },
        RegisterWrite::Command { index: 1, command: write_command(3) },
        RegisterWrite::FifoData(0x40),
        RegisterWrite::Command { index: 2, command: Command::Stop },
        RegisterWrite::FifoData(0xAA),
        RegisterWrite::FifoData(0xBB),
        RegisterWrite::TransStart,
    ]);
    assert_eq!(regs, expected);
}

#[test]
fn start_write_operation_on_the_other_families_leaves_the_payload() {
    let d = driver(Variant::Esp32C3);
    let mut regs = Vec::new();
    let r = d.start_write_operation(I2cAddress::SevenBit(0x20), &[0xAA, 0xBB], false, false, &mut regs);
    assert_eq!(r, Ok(0));
    let mut expected = fifo_reset(Variant::Esp32C3);
    expected.extend(command_list_reset(Variant::Esp32C3));
    expected.extend([
        RegisterWrite::Command { index: 0, command: write_command(2) },
        RegisterWrite::ConfigUpdate,
        RegisterWrite::Command { index: 1, command: Command::End },
    ]);
    assert_eq!(regs, expected);
}

#[test]
fn start_write_operation_limits() {
    let address = I2cAddress::SevenBit(0x20);
    let mut regs = Vec::new();
    assert_eq!(
        driver(Variant::Esp32).start_write_operation(address, &[0; 33], true, true, &mut regs),
        Err(Error::FifoExceeded)
    );
    assert_eq!(
        driver(Variant::Esp32).start_write_operation(address, &[0; 32], true, true, &mut regs),
        Ok(32)
    );
    assert_eq!(
        driver(Variant::Esp32S2).start_write_operation(address, &[0; 32], false, false, &mut regs),
        Ok(32)
    );
    assert_eq!(
        driver(Variant::Esp32S2).start_write_operation(address, &[0; 33], false, false, &mut regs),
        Err(Error::FifoExceeded)
    );
    assert_eq!(
        driver(Variant::Esp32C3).start_write_operation(address, &[0; 254], true, true, &mut regs),
        Ok(0)
    );
    regs.clear();
    assert_eq!(
        driver(Variant::Esp32C3).start_write_operation(address, &[0; 255], true, true, &mut regs),
        Err(Error::FifoExceeded)
    );
    // The head was queued before the length was judged.
    let mut head = fifo_reset(Variant::Esp32C3);
    head.extend(command_list_reset(Variant::Esp32C3));
    head.push(RegisterWrite::Command { index: 0, command: Command::Start });
    assert_eq!(regs, head);
}

#[test]
fn start_read_operation_programs_and_starts() {
    let d = driver(Variant::Esp32S3);
    let mut regs = Vec::new();
    let r = d.start_read_operation(I2cAddress::SevenBit(0x51), 2, true, true, false, &mut regs);
    assert_eq!(r, Ok(()));
    assert_eq!(
        commands_of(&regs),
        vec![
            (0, Command::Start),
            (1, write_command(1)),
            (2, read_command(Ack::Ack, 1)),
            (3, read_command(Ack::Nack, 1)),
            (4, Command::Stop),
        ]
    );
    assert_eq!(regs.last(), Some(&RegisterWrite::TransStart));
    assert!(regs.contains(&RegisterWrite::FifoData(0xA3)));
    let r = d.start_read_operation(I2cAddress::SevenBit(0x51), 0, true, true, false, &mut regs);
    assert_eq!(r, Err(Error::ZeroLengthInvalid));
    let r = d.start_read_operation(I2cAddress::SevenBit(0x51), 255, false, false, false, &mut regs);
    assert_eq!(r, Err(Error::FifoExceeded));
}

#[test]
fn reset_queues_state_machine_interrupts_fifos_and_commands() {
    for variant in [Variant::Esp32, Variant::Esp32S2, Variant::Esp32C2, Variant::Esp32S3] {
        let mut regs = vec![RegisterWrite::TransStart];
        driver(variant).reset(&mut regs);
        let mut expected = vec![RegisterWrite::TransStart];
        expected.extend(full_reset(variant));
        assert_eq!(regs, expected);
        // Resetting again queues the same again.
        driver(variant).reset(&mut regs);
        expected.extend(full_reset(variant));
        assert_eq!(regs, expected);
    }
}

#[test]
fn small_writes_of_the_driver() {
    let d = driver(Variant::Esp32C3);
    let mut regs = Vec::new();
    d.update_config(&mut regs);
    d.start_transmission(&mut regs);
    d.clear_all_interrupts(&mut regs);
    assert_eq!(
        regs,
        vec![
            RegisterWrite::ConfigUpdate,
            RegisterWrite::TransStart,
            RegisterWrite::InterruptClearMask(0x3ffff),
        ]
    );
    let d = driver(Variant::Esp32S2);
    let mut regs = Vec::new();
    d.update_config(&mut regs);
    d.clear_all_interrupts(&mut regs);
    assert_eq!(regs, vec![RegisterWrite::InterruptClearMask(0x1ffff)]);
    let mut regs = Vec::new();
    d.reset_command_list(&mut regs);
    assert_eq!(regs, command_list_reset(Variant::Esp32S2));
    let mut regs = Vec::new();
    d.reset_fifo(&mut regs);
    assert_eq!(regs, fifo_reset(Variant::Esp32S2));
}

#[test]
fn filters_by_family() {
    let mut regs = Vec::new();
    set_filter(Variant::Esp32, Some(7), None, &mut regs);
    set_filter(Variant::Esp32H2, None, Some(3), &mut regs);
    assert_eq!(
        regs,
        vec![
            RegisterWrite::SdaFilter(Some(7)),
            RegisterWrite::SclFilter(None),
            RegisterWrite::Filter { sda: None, scl: Some(3) },
        ]
    );
}

#[test]
fn setup_queues_mode_filters_clock_and_reset() {
    let config = Config::default();
    let mut regs = Vec::new();
    assert_eq!(driver(Variant::Esp32S2).setup(&config, 80_000_000, &mut regs), Ok(()));
    let mut expected = vec![
        RegisterWrite::MasterMode,
        RegisterWrite::RefAlwaysOn,
        RegisterWrite::SdaFilter(Some(7)),
        RegisterWrite::SclFilter(Some(7)),
        RegisterWrite::SclLowPeriod(399),
        RegisterWrite::SclHighWaitPeriod { period: 202, wait_high: 198 },
        RegisterWrite::SdaHold(200),
        RegisterWrite::SdaSample(199),
        RegisterWrite::SclRstartSetup(400),
        RegisterWrite::SclStopSetup(400),
        RegisterWrite::SclStartHold(399),
        RegisterWrite::SclStopHold(400),
        RegisterWrite::Timeout { enable: true, value: 8000 },
    ];
    expected.extend(full_reset(Variant::Esp32S2));
    assert_eq!(regs, expected);

    let mut regs = Vec::new();
    assert_eq!(driver(Variant::Esp32C3).setup(&config, 40_000_000, &mut regs), Ok(()));
    assert_eq!(regs[0], RegisterWrite::MasterMode);
    assert_eq!(regs[1], RegisterWrite::Filter { sda: Some(7), scl: Some(7) });
    assert_eq!(regs[2], RegisterWrite::ClockDivider(0));
    assert_eq!(regs[12], RegisterWrite::ConfigUpdate);
    assert_eq!(regs[13..], full_reset(Variant::Esp32C3)[..]);
}

#[test]
fn setup_with_an_invalid_configuration_queues_nothing() {
    let mut regs = vec![RegisterWrite::TransStart];
    let config = Config::default().with_timeout(BusTimeout::BusCycles(u32::MAX));
    assert_eq!(
        driver(Variant::Esp32).setup(&config, 80_000_000, &mut regs),
        Err(ConfigError::TimeoutInvalid)
    );
    let config = Config::default().with_frequency(0);
    assert_eq!(
        driver(Variant::Esp32C3).setup(&config, 40_000_000, &mut regs),
        Err(ConfigError::FrequencyInvalid)
    );
    let config = Config::default().with_frequency(100);
    assert_eq!(
        driver(Variant::Esp32C3).setup(&config, 40_000_000, &mut regs),
        Err(ConfigError::FrequencyInvalid)
    );
    assert_eq!(regs, vec![RegisterWrite::TransStart]);
}

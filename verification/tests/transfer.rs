use esp_i2c::{
    read_segments, transaction_segments, write_segments, Ack, AcknowledgeCheckFailedReason,
    Awaiting, BusTimeout, Command, CommandStatus, Config, ConfigError, Control, Driver,
    DriverMode, Error, Event, EventSet, I2c, I2cAddress, I2cMaster, Info, InterruptFlags, OpKind,
    Operation, Peripheral, Phase, RegisterWrite, Segment, State, Status, Transfer, Variant, Wake,
    Watermark, MAX_ITERATIONS,
};

const ADDRESS: I2cAddress = I2cAddress::SevenBit(0x20);

fn info(variant: Variant) -> Info {
    Info::new(variant, Peripheral::I2cExt0)
}

fn driver(variant: Variant) -> Driver {
    Driver { info: info(variant) }
}

fn source_clock(variant: Variant) -> u32 {
    match variant {
        Variant::Esp32 | Variant::Esp32S2 => 80_000_000,
        _ => 40_000_000,
    }
}

fn master(variant: Variant) -> I2cMaster {
    let mut regs = Vec::new();
    I2cMaster::new(info(variant), Config::default(), source_clock(variant), &mut regs).unwrap()
}

fn quiet() -> Status {
    Status {
        raw: InterruptFlags::none(),
        enabled: InterruptFlags::none(),
        response_received: true,
        tx_fifo_read_pointer: 0,
        rx_fifo_read_pointer: 0,
        rx_fifo_write_pointer: 0,
        commands: Vec::new(),
    }
}

/// A snapshot on which every wait ends well.
fn willing() -> Status {
    Status {
        raw: InterruptFlags {
            trans_complete: true,
            end_detect: true,
            txfifo_wm: true,
            ..InterruptFlags::none()
        },
        rx_fifo_write_pointer: 1,
        ..quiet()
    }
}

fn with_raw(raw: InterruptFlags) -> Status {
    Status { raw, ..quiet() }
}

/// Runs the transfer to its end, with the same snapshot for every wait and
/// the bytes of `received` for the receive FIFO.
fn run(
    transfer: &mut Transfer,
    status: &Status,
    received: &[u8],
    regs: &mut Vec<RegisterWrite>,
) -> Result<(), Error> {
    let mut state = State::new();
    let mut bytes = received.iter();
    loop {
        match transfer.awaiting() {
            Awaiting::Nothing => return transfer.outcome().unwrap(),
            Awaiting::Byte => transfer.on_byte(*bytes.next().unwrap()),
            _ => transfer.on_status(status, &mut state, regs),
        }
    }
}

fn commands_of(regs: &[RegisterWrite]) -> Vec<Command> {
    regs.iter()
        .filter_map(|write| match write {
            RegisterWrite::Command { command, .. } => Some(*command),
            _ => None,
        })
        .collect()
}

fn pushed(regs: &[RegisterWrite]) -> Vec<u8> {
    regs.iter()
        .filter_map(|write| match write {
            RegisterWrite::FifoData(byte) => Some(*byte),
            _ => None,
        })
        .collect()
}

fn count(regs: &[RegisterWrite], wanted: RegisterWrite) -> usize {
    regs.iter().filter(|write| **write == wanted).count()
}

fn write_command(length: u8) -> Command {
    Command::Write { ack_exp: Ack::Ack, ack_check_en: true, length }
}

fn read_command(ack_value: Ack, length: u8) -> Command {
    Command::Read { ack_value, length }
}

fn reset_of(variant: Variant) -> Vec<RegisterWrite> {
    let mut regs = Vec::new();
    driver(variant).reset(&mut regs);
    regs
}

fn recovery_of(master: &I2cMaster) -> Vec<RegisterWrite> {
    let mut regs = Vec::new();
    master.i2c.internal_recover(&mut regs);
    regs
}

fn flags(segments: &[Segment]) -> Vec<(OpKind, bool, bool, bool, usize)> {
    segments.iter().map(|s| (s.kind, s.start, s.stop, s.will_continue, s.len)).collect()
}

#[test]
fn write_without_bytes_and_flags_is_no_operation() {
    for variant in [Variant::Esp32, Variant::Esp32S2, Variant::Esp32C3, Variant::Esp32S3] {
        for mode in [DriverMode::Blocking, DriverMode::Async] {
            let mut regs = vec![RegisterWrite::TransStart];
            let transfer = driver(variant).write(mode, ADDRESS, &[], false, false, &mut regs);
            assert_eq!(transfer.outcome(), Some(Ok(())));
            assert_eq!(transfer.awaiting(), Awaiting::Nothing);
            assert_eq!(regs, vec![RegisterWrite::TransStart]);
            assert!(transfer.segments.is_empty());
        }
    }
}

#[test]
fn read_without_bytes_is_no_operation() {
    for variant in [Variant::Esp32, Variant::Esp32C6] {
        for (start, stop, will_continue) in
            [(true, true, false), (false, false, true), (true, false, false)]
        {
            let mut regs = Vec::new();
            let transfer = driver(variant).read(
                DriverMode::Blocking,
                ADDRESS,
                0,
                start,
                stop,
                will_continue,
                &mut regs,
            );
            assert_eq!(transfer.outcome(), Some(Ok(())));
            assert!(regs.is_empty());
            assert!(transfer.into_received().is_empty());
        }
    }
    let mut regs = Vec::new();
    let transfer = master(Variant::Esp32C3).read(ADDRESS, 0, &mut regs);
    assert_eq!(transfer.outcome(), Some(Ok(())));
    assert!(regs.is_empty());
}

#[test]
fn write_without_bytes_with_flags_probes_the_bus() {
    let mut regs = Vec::new();
    let mut transfer = master(Variant::Esp32C3).write(ADDRESS, &[], &mut regs);
    assert_eq!(flags(&transfer.segments), vec![(OpKind::Write, true, true, false, 0)]);
    assert_eq!(run(&mut transfer, &willing(), &[], &mut regs), Ok(()));
    assert_eq!(commands_of(&regs), vec![Command::Start, write_command(1), Command::Stop]);
    assert_eq!(pushed(&regs), vec![0x40]);
    // Only a STOP.
    let mut regs = Vec::new();
    let mut transfer =
        driver(Variant::Esp32C3).write(DriverMode::Blocking, ADDRESS, &[], false, true, &mut regs);
    assert_eq!(run(&mut transfer, &willing(), &[], &mut regs), Ok(()));
    assert_eq!(commands_of(&regs), vec![Command::Stop]);
    assert!(pushed(&regs).is_empty());
}

#[test]
fn blocking_write_step_by_step() {
    let variant = Variant::Esp32C3;
    let none = InterruptFlags::none();
    let mut state = State::new();
    let mut regs = Vec::new();
    let mut t = master(variant).write(ADDRESS, &[0xAA, 0xBB], &mut regs);
    let mut expected = vec![
        RegisterWrite::InterruptClearMask(0x3ffff),
        RegisterWrite::FifoReset { protect: true, rx_threshold: 1, tx_threshold: 8 },
        RegisterWrite::FifoRelease,
        RegisterWrite::InterruptClear(InterruptFlags { rxfifo_wm: true, txfifo_wm: true, ..none }),
        RegisterWrite::ConfigUpdate,
    ];
    expected.extend((0..8).map(RegisterWrite::CommandReset));
    expected.extend([
        RegisterWrite::Command { index: 0, command: Command::Start },
        RegisterWrite::Command { index: 1, command: write_command(3) },
        RegisterWrite::ConfigUpdate,
        RegisterWrite::FifoData(0x40),
        RegisterWrite::Command { index: 2, command: Command::Stop },
    ]);
    assert_eq!(regs, expected);
    assert_eq!(t.control, Control { cursor: 0, phase: Phase::Fill, index: 0, remaining: 0, parked: false });
    assert_eq!(t.awaiting(), Awaiting::Status);
    assert_eq!(t.outcome(), None);

    regs.clear();
    t.on_status(&quiet(), &mut state, &mut regs);
    t.on_status(&quiet(), &mut state, &mut regs);
    assert_eq!(regs, vec![RegisterWrite::FifoData(0xAA), RegisterWrite::FifoData(0xBB)]);
    assert_eq!(t.control.phase, Phase::Fill);
    assert_eq!(t.control.index, 2);
    t.on_status(&quiet(), &mut state, &mut regs);
    assert_eq!(regs.last(), Some(&RegisterWrite::TransStart));
    assert_eq!(t.control.phase, Phase::Stream(Watermark::Check));

    regs.clear();
    let seen = with_raw(InterruptFlags { txfifo_wm: true, ..none });
    t.on_status(&quiet(), &mut state, &mut regs);
    assert_eq!(t.control.phase, Phase::Stream(Watermark::First));
    t.on_status(&seen, &mut state, &mut regs);
    assert_eq!(t.control.phase, Phase::Stream(Watermark::Second));
    assert_eq!(
        regs,
        vec![RegisterWrite::InterruptClear(InterruptFlags { txfifo_wm: true, ..none })]
    );
    t.on_status(&seen, &mut state, &mut regs);
    assert_eq!(
        t.control,
        Control {
            cursor: 0,
            phase: Phase::Wait { reading: false },
            index: 0,
            remaining: MAX_ITERATIONS,
            parked: false
        }
    );

    regs.clear();
    t.on_status(&quiet(), &mut state, &mut regs);
    assert_eq!(t.control.remaining, MAX_ITERATIONS - 1);
    // The write ends with a STOP, so the end of the command list alone would do too.
    let stopped = with_raw(InterruptFlags { trans_complete: true, ..none });
    t.on_status(&stopped, &mut state, &mut regs);
    assert_eq!(t.outcome(), Some(Ok(())));
    assert_eq!(t.control.phase, Phase::Finished(Ok(())));
    assert_eq!(t.control.cursor, 1);
    assert_eq!(t.awaiting(), Awaiting::Nothing);
    assert!(regs.is_empty());
    assert_eq!(state.waker, Wake::Pending);
}

#[test]
fn write_on_a_fifo_limited_family_is_pushed_at_once() {
    let mut regs = Vec::new();
    let mut t = master(Variant::Esp32).write(ADDRESS, &[1, 2, 3], &mut regs);
    assert_eq!(pushed(&regs), vec![0x40, 1, 2, 3]);
    assert_eq!(regs.last(), Some(&RegisterWrite::TransStart));
    assert_eq!(t.control.phase, Phase::Wait { reading: false });
    assert_eq!(commands_of(&regs), vec![Command::Start, write_command(4), Command::Stop]);
    assert_eq!(run(&mut t, &willing(), &[], &mut regs), Ok(()));
}

#[test]
fn write_of_a_full_chunk_on_a_fifo_limited_family() {
    for variant in [Variant::Esp32, Variant::Esp32S2] {
        let m = master(variant);
        let bytes: Vec<u8> = (0..32).collect();
        let mut regs = Vec::new();
        let mut t = m.write(ADDRESS, &bytes, &mut regs);
        assert_eq!(t.outcome(), None);
        assert_eq!(run(&mut t, &willing(), &[], &mut regs), Ok(()));
        assert_eq!(commands_of(&regs), vec![Command::Start, write_command(33), Command::Stop]);
        let mut expected = vec![0x40];
        expected.extend(&bytes);
        assert_eq!(pushed(&regs), expected);
    }
}

#[test]
fn write_of_one_byte_over_a_chunk_on_a_fifo_limited_family() {
    for variant in [Variant::Esp32, Variant::Esp32S2] {
        let m = master(variant);
        let bytes: Vec<u8> = (100..133).collect();
        let mut regs = Vec::new();
        let mut t = m.write(ADDRESS, &bytes, &mut regs);
        assert_eq!(
            flags(&t.segments),
            vec![(OpKind::Write, true, false, false, 32), (OpKind::Write, false, true, false, 1)]
        );
        assert_eq!(run(&mut t, &willing(), &[], &mut regs), Ok(()));
        assert_eq!(
            commands_of(&regs),
            vec![
                Command::Start,
                write_command(33),
                Command::End,
                write_command(1),
                Command::Stop
            ]
        );
        let mut expected = vec![0x40];
        expected.extend(&bytes);
        assert_eq!(pushed(&regs), expected);
        assert_eq!(count(&regs, RegisterWrite::TransStart), 2);
    }
}

#[test]
fn segment_over_a_chunk_fails_on_a_fifo_limited_family() {
    let segments = vec![Segment {
        kind: OpKind::Write,
        start: true,
        stop: true,
        will_continue: false,
        len: 33,
        data: vec![0; 33],
    }];
    let mut regs = Vec::new();
    let t = Transfer::new(
        driver(Variant::Esp32S2),
        DriverMode::Blocking,
        ADDRESS,
        segments,
        vec![RegisterWrite::PeripheralReset],
        &mut regs,
    );
    assert_eq!(t.outcome(), Some(Err(Error::FifoExceeded)));
    assert_eq!(regs.last(), Some(&RegisterWrite::PeripheralReset));
    assert_eq!(count(&regs, RegisterWrite::TransStart), 0);
}

#[test]
fn transfer_of_the_driver_resets_the_controller_when_it_fails() {
    for variant in [Variant::Esp32, Variant::Esp32C3] {
        let d = driver(variant);
        // A wait that never ends: the bound of the wait gives the timeout.
        let mut state = State::new();
        let mut regs = Vec::new();
        let mut t = d.write(DriverMode::Blocking, ADDRESS, &[], true, true, &mut regs);
        assert_eq!(t.recovery, reset_of(variant));
        regs.clear();
        let stuck = with_raw(InterruptFlags { txfifo_wm: true, ..InterruptFlags::none() });
        while t.awaiting() != Awaiting::Nothing {
            t.on_status(&stuck, &mut state, &mut regs);
        }
        assert_eq!(t.outcome(), Some(Err(Error::Timeout)));
        assert!(regs.ends_with(&reset_of(variant)));
        // Commands that did not run.
        let open = CommandStatus { bits: 0x0801, is_end: false, done: false };
        let mut regs = Vec::new();
        let mut t = d.read(DriverMode::Blocking, ADDRESS, 1, true, true, false, &mut regs);
        let status = Status { commands: vec![open], ..willing() };
        assert_eq!(run(&mut t, &status, &[7], &mut regs), Err(Error::ExecutionIncomplete));
        assert!(regs.ends_with(&reset_of(variant)));
        // A fault of the bus.
        let mut regs = Vec::new();
        let mut t = d.read(DriverMode::Blocking, ADDRESS, 1, true, true, false, &mut regs);
        let lost = with_raw(InterruptFlags { arbitration_lost: true, ..InterruptFlags::none() });
        assert_eq!(run(&mut t, &lost, &[], &mut regs), Err(Error::ArbitrationLost));
        assert!(regs.ends_with(&reset_of(variant)));
    }
}

#[test]
fn blocking_read_drains_byte_by_byte() {
    let variant = Variant::Esp32C6;
    let mut state = State::new();
    let mut regs = Vec::new();
    let mut t = master(variant).read(ADDRESS, 2, &mut regs);
    assert_eq!(
        commands_of(&regs),
        vec![
            Command::Start,
            write_command(1),
            read_command(Ack::Ack, 1),
            read_command(Ack::Nack, 1),
            Command::Stop
        ]
    );
    assert_eq!(pushed(&regs), vec![0x41]);
    assert_eq!(regs.last(), Some(&RegisterWrite::TransStart));
    assert_eq!(t.control.phase, Phase::Drain);
    regs.clear();
    t.on_status(&quiet(), &mut state, &mut regs);
    assert_eq!(t.awaiting(), Awaiting::Status);
    let arrived = Status { rx_fifo_write_pointer: 1, ..quiet() };
    t.on_status(&arrived, &mut state, &mut regs);
    assert_eq!(t.awaiting(), Awaiting::Byte);
    t.on_byte(0x11);
    assert_eq!(t.control.phase, Phase::Drain);
    assert_eq!(t.control.index, 1);
    t.on_status(&arrived, &mut state, &mut regs);
    t.on_byte(0x22);
    assert_eq!(t.control.phase, Phase::Wait { reading: false });
    t.on_status(&willing(), &mut state, &mut regs);
    assert_eq!(t.outcome(), Some(Ok(())));
    assert!(regs.is_empty());
    assert_eq!(t.into_received(), vec![0x11, 0x22]);
}

#[test]
fn read_on_a_fifo_limited_family_waits_for_the_end_first() {
    let mut state = State::new();
    let mut regs = Vec::new();
    let mut t = driver(Variant::Esp32).read(
        DriverMode::Blocking,
        ADDRESS,
        3,
        true,
        false,
        true,
        &mut regs,
    );
    assert_eq!(
        commands_of(&regs),
        vec![Command::Start, write_command(1), read_command(Ack::Ack, 3), Command::End]
    );
    assert_eq!(t.control.phase, Phase::Wait { reading: true });
    // The first wait takes a STOP as well as an END.
    let stopped = with_raw(InterruptFlags { trans_complete: true, ..InterruptFlags::none() });
    t.on_status(&stopped, &mut state, &mut regs);
    assert_eq!(t.control.phase, Phase::Receive);
    t.on_byte(1);
    assert_eq!(t.awaiting(), Awaiting::Byte);
    t.on_byte(2);
    t.on_byte(3);
    assert_eq!(t.control.phase, Phase::Wait { reading: false });
    assert_eq!(t.control.remaining, MAX_ITERATIONS);
    // The second wait, without a STOP in the list, takes only the END.
    t.on_status(&stopped, &mut state, &mut regs);
    assert_eq!(t.outcome(), None);
    let ended = with_raw(InterruptFlags { end_detect: true, ..InterruptFlags::none() });
    t.on_status(&ended, &mut state, &mut regs);
    assert_eq!(t.outcome(), Some(Ok(())));
    assert_eq!(t.into_received(), vec![1, 2, 3]);
}

#[test]
fn buffers_are_cut_into_chunks() {
    let bytes: Vec<u8> = (0..100).collect();
    let plan = write_segments(Variant::Esp32, &bytes, true, true);
    assert_eq!(
        flags(&plan),
        vec![
            (OpKind::Write, true, false, false, 32),
            (OpKind::Write, false, false, false, 32),
            (OpKind::Write, false, false, false, 32),
            (OpKind::Write, false, true, false, 4),
        ]
    );
    let joined: Vec<u8> = plan.iter().flat_map(|s| s.data.clone()).collect();
    assert_eq!(joined, bytes);
    assert_eq!(plan[3].data, vec![96, 97, 98, 99]);

    let plan = read_segments(Variant::Esp32C3, 600, true, true, false);
    assert_eq!(
        flags(&plan),
        vec![
            (OpKind::Read, true, false, true, 254),
            (OpKind::Read, false, false, true, 254),
            (OpKind::Read, false, true, false, 92),
        ]
    );
    let plan = read_segments(Variant::Esp32C3, 508, false, false, true);
    assert_eq!(
        flags(&plan),
        vec![(OpKind::Read, false, false, true, 254), (OpKind::Read, false, false, true, 254)]
    );
    let plan = write_segments(Variant::Esp32C3, &[0; 254], true, false);
    assert_eq!(flags(&plan), vec![(OpKind::Write, true, false, false, 254)]);
    let plan = write_segments(Variant::Esp32C3, &[0; 255], false, true);
    assert_eq!(
        flags(&plan),
        vec![(OpKind::Write, false, false, false, 254), (OpKind::Write, false, true, false, 1)]
    );
    assert!(read_segments(Variant::Esp32, 0, true, true, false).is_empty());
    assert!(write_segments(Variant::Esp32, &[], false, false).is_empty());
    assert_eq!(
        flags(&write_segments(Variant::Esp32, &[], true, false)),
        vec![(OpKind::Write, true, false, false, 0)]
    );
}

#[test]
fn chunk_count_is_the_length_over_the_chunk_size_rounded_up() {
    for (variant, size) in [(Variant::Esp32, 32usize), (Variant::Esp32S3, 254)] {
        assert_eq!(variant.chunk_size(), size);
        for len in [1, size - 1, size, size + 1, 2 * size, 2 * size + 1, 1000] {
            let bytes = vec![0x5A; len];
            let writes = write_segments(variant, &bytes, true, true);
            let reads = read_segments(variant, len, true, true, false);
            let expected = (len + size - 1) / size;
            assert_eq!(writes.len(), expected);
            assert_eq!(reads.len(), expected);
            for (i, (w, r)) in writes.iter().zip(&reads).enumerate() {
                assert_eq!(w.start, i == 0);
                assert_eq!(r.start, i == 0);
                assert_eq!(w.stop, i == expected - 1);
                assert_eq!(r.stop, i == expected - 1);
                assert_eq!(r.will_continue, i < expected - 1);
                assert_eq!(w.len, w.data.len());
                assert_eq!(w.len, r.len);
                assert!(w.len >= 1 && w.len <= size);
            }
            assert_eq!(writes.iter().map(|s| s.len).sum::<usize>(), len);
        }
    }
}

#[test]
fn chunked_read_runs_every_chunk() {
    let mut regs = Vec::new();
    let mut t = master(Variant::Esp32).read(ADDRESS, 70, &mut regs);
    let bytes: Vec<u8> = (0..70).collect();
    assert_eq!(run(&mut t, &willing(), &bytes, &mut regs), Ok(()));
    assert_eq!(
        commands_of(&regs),
        vec![
            Command::Start,
            write_command(1),
            read_command(Ack::Ack, 32),
            Command::End,
            read_command(Ack::Ack, 32),
            Command::End,
            read_command(Ack::Ack, 5),
            read_command(Ack::Nack, 1),
            Command::Stop,
        ]
    );
    assert_eq!(count(&regs, RegisterWrite::TransStart), 3);
    assert_eq!(t.control.cursor, 3);
    assert_eq!(t.into_received(), bytes);
}

#[test]
fn chunked_write_runs_every_chunk() {
    let bytes: Vec<u8> = (0..300u32).map(|i| (i % 251) as u8).collect();
    let mut regs = Vec::new();
    let mut t = master(Variant::Esp32S3).write(ADDRESS, &bytes, &mut regs);
    assert_eq!(run(&mut t, &willing(), &[], &mut regs), Ok(()));
    assert_eq!(
        commands_of(&regs),
        vec![Command::Start, write_command(255), Command::End, write_command(46), Command::Stop]
    );
    let mut expected = vec![0x40];
    expected.extend(&bytes);
    assert_eq!(pushed(&regs), expected);
    assert_eq!(count(&regs, RegisterWrite::TransStart), 2);
}

#[test]
fn transaction_of_two_writes_has_one_start_and_one_stop() {
    for (variant, first, second) in [
        (Variant::Esp32C3, 3usize, 2usize),
        (Variant::Esp32C3, 300, 600),
        (Variant::Esp32C3, 0, 5),
        (Variant::Esp32C3, 5, 0),
        (Variant::Esp32C3, 0, 0),
        (Variant::Esp32, 10, 31),
        (Variant::Esp32, 32, 5),
        (Variant::Esp32S2, 7, 32),
        (Variant::Esp32, 32, 33),
    ] {
        let operations =
            vec![Operation::Write(vec![0x11; first]), Operation::Write(vec![0x22; second])];
        let mut regs = Vec::new();
        let mut t = master(variant).transaction(ADDRESS, &operations, &mut regs);
        assert_eq!(run(&mut t, &willing(), &[], &mut regs), Ok(()));
        let commands = commands_of(&regs);
        assert_eq!(commands.iter().filter(|c| **c == Command::Start).count(), 1);
        assert_eq!(commands.iter().filter(|c| **c == Command::Stop).count(), 1);
        assert_eq!(commands.first(), Some(&Command::Start));
        assert_eq!(commands.last(), Some(&Command::Stop));
        let mut expected = vec![0x40];
        expected.extend(vec![0x11; first]);
        expected.extend(vec![0x22; second]);
        assert_eq!(pushed(&regs), expected);
    }
    let operations = vec![Operation::Write(vec![1, 2]), Operation::Write(vec![3])];
    let mut regs = Vec::new();
    let mut t = master(Variant::Esp32C3).transaction(ADDRESS, &operations, &mut regs);
    assert_eq!(run(&mut t, &willing(), &[], &mut regs), Ok(()));
    assert_eq!(
        commands_of(&regs),
        vec![Command::Start, write_command(3), Command::End, write_command(1), Command::Stop]
    );
}

#[test]
fn transaction_of_a_write_and_two_reads() {
    let operations = vec![
        Operation::Write(vec![0xA0, 0xA1]),
        Operation::Read(vec![0; 3]),
        Operation::Read(vec![0; 2]),
    ];
    for variant in [Variant::Esp32, Variant::Esp32C3] {
        let plan = transaction_segments(variant, &operations);
        assert_eq!(
            flags(&plan),
            vec![
                (OpKind::Write, true, false, false, 2),
                (OpKind::Read, true, false, true, 3),
                (OpKind::Read, false, true, false, 2),
            ]
        );
        let mut regs = Vec::new();
        let mut t = master(variant).transaction(ADDRESS, &operations, &mut regs);
        assert_eq!(run(&mut t, &willing(), &[1, 2, 3, 4, 5], &mut regs), Ok(()));
        assert_eq!(
            commands_of(&regs),
            vec![
                Command::Start,
                write_command(3),
                Command::End,
                Command::Start,
                write_command(1),
                read_command(Ack::Ack, 3),
                Command::End,
                read_command(Ack::Ack, 1),
                read_command(Ack::Nack, 1),
                Command::Stop,
            ]
        );
        assert_eq!(pushed(&regs), vec![0x40, 0xA0, 0xA1, 0x41]);
        assert_eq!(t.into_received(), vec![1, 2, 3, 4, 5]);
    }
}

#[test]
fn transaction_drops_empty_reads_and_keeps_empty_writes() {
    let variant = Variant::Esp32C3;
    let operations = vec![
        Operation::Read(vec![]),
        Operation::Write(vec![1]),
        Operation::Read(vec![]),
        Operation::Write(vec![2]),
        Operation::Read(vec![]),
    ];
    assert_eq!(
        flags(&transaction_segments(variant, &operations)),
        vec![(OpKind::Write, true, false, false, 1), (OpKind::Write, false, true, false, 1)]
    );
    let operations = vec![Operation::Write(vec![]), Operation::Read(vec![0; 2])];
    assert_eq!(
        flags(&transaction_segments(variant, &operations)),
        vec![(OpKind::Write, true, false, false, 0), (OpKind::Read, true, true, false, 2)]
    );
    let operations = vec![
        Operation::Read(vec![0]),
        Operation::Read(vec![]),
        Operation::Read(vec![0; 4]),
        Operation::Write(vec![]),
    ];
    assert_eq!(
        flags(&transaction_segments(variant, &operations)),
        vec![
            (OpKind::Read, true, false, true, 1),
            (OpKind::Read, false, false, false, 4),
            (OpKind::Write, true, true, false, 0),
        ]
    );
    assert!(transaction_segments(variant, &[].to_vec()).is_empty());
    assert!(transaction_segments(variant, &vec![Operation::Read(vec![])]).is_empty());
    let mut regs = Vec::new();
    let t = master(variant).transaction(ADDRESS, &vec![Operation::Read(vec![])], &mut regs);
    assert_eq!(t.outcome(), Some(Ok(())));
    assert!(regs.is_empty());
}

#[test]
fn operations_know_their_kind_and_length() {
    let write = Operation::Write(vec![1, 2, 3]);
    let read = Operation::Read(vec![0; 2]);
    assert!(write.is_write());
    assert!(!read.is_write());
    assert_eq!(write.kind(), OpKind::Write);
    assert_eq!(read.kind(), OpKind::Read);
    assert_eq!(write.len(), 3);
    assert_eq!(read.len(), 2);
    assert!(!write.is_empty());
    assert!(Operation::Write(vec![]).is_empty());
    assert!(Operation::Read(vec![]).is_empty());
}

#[test]
fn write_then_read_keeps_the_bus_between_them() {
    let m = master(Variant::Esp32C3);
    let mut regs = Vec::new();
    let mut t = m.write_read(ADDRESS, &[0xAA], 2, &mut regs);
    assert_eq!(
        flags(&t.segments),
        vec![(OpKind::Write, true, false, false, 1), (OpKind::Read, true, true, false, 2)]
    );
    assert_eq!(run(&mut t, &willing(), &[7, 8], &mut regs), Ok(()));
    assert_eq!(
        commands_of(&regs),
        vec![
            Command::Start,
            write_command(2),
            Command::End,
            Command::Start,
            write_command(1),
            read_command(Ack::Ack, 1),
            read_command(Ack::Nack, 1),
            Command::Stop,
        ]
    );
    assert_eq!(t.into_received(), vec![7, 8]);
    // With nothing to read the write ends with the STOP.
    let mut regs = Vec::new();
    let mut t = m.write_read(ADDRESS, &[0xAA], 0, &mut regs);
    assert_eq!(flags(&t.segments), vec![(OpKind::Write, true, true, false, 1)]);
    assert_eq!(run(&mut t, &willing(), &[], &mut regs), Ok(()));
    assert_eq!(commands_of(&regs), vec![Command::Start, write_command(2), Command::Stop]);
}

#[test]
fn a_fault_is_followed_by_a_reset_and_the_next_transfer_succeeds() {
    let none = InterruptFlags::none();
    for variant in [Variant::Esp32, Variant::Esp32S2, Variant::Esp32C3, Variant::Esp32S3] {
        for (raw, error) in [
            (InterruptFlags { time_out: true, ..none }, Error::Timeout),
            (InterruptFlags { arbitration_lost: true, ..none }, Error::ArbitrationLost),
            (
                InterruptFlags { nack: true, ..none },
                Error::AcknowledgeCheckFailed(if variant == Variant::Esp32S3 {
                    AcknowledgeCheckFailedReason::Address
                } else {
                    AcknowledgeCheckFailedReason::Unknown
                }),
            ),
        ] {
            let m = master(variant);
            let faulty = Status { raw: InterruptFlags { txfifo_wm: true, ..raw }, ..quiet() };
            let mut regs = Vec::new();
            let mut t = m.write(ADDRESS, &[1, 2, 3], &mut regs);
            assert_eq!(run(&mut t, &faulty, &[], &mut regs), Err(error));
            assert_eq!(t.awaiting(), Awaiting::Nothing);
            // The controller was reset at the fault, and set up again after it.
            let mut end = reset_of(variant);
            end.extend(recovery_of(&m));
            assert!(regs.ends_with(&end));
            assert!(regs.ends_with(&reset_of(variant)));
            // Without any reconfiguration the next transfer runs.
            let mut regs = Vec::new();
            let mut t = m.read(ADDRESS, 1, &mut regs);
            assert_eq!(run(&mut t, &willing(), &[9], &mut regs), Ok(()));
            assert_eq!(t.into_received(), vec![9]);
        }
    }
}

#[test]
fn recovery_cycles_the_peripheral_and_sets_it_up_again() {
    let m = master(Variant::Esp32C3);
    let mut setup = Vec::new();
    assert_eq!(m.i2c.driver().setup(&m.i2c.config, m.i2c.source_clock, &mut setup), Ok(()));
    let mut expected = vec![
        RegisterWrite::PeripheralDisable,
        RegisterWrite::PeripheralEnable,
        RegisterWrite::PeripheralReset,
    ];
    expected.extend(setup);
    assert_eq!(recovery_of(&m), expected);
}

#[test]
fn a_failure_in_a_read_keeps_what_was_read() {
    let m = master(Variant::Esp32C3);
    let mut state = State::new();
    let mut regs = Vec::new();
    let mut t = m.read(ADDRESS, 3, &mut regs);
    let arrived = Status { rx_fifo_write_pointer: 1, ..quiet() };
    t.on_status(&arrived, &mut state, &mut regs);
    t.on_byte(0x55);
    let nack = Status { raw: InterruptFlags { nack: true, ..InterruptFlags::none() }, ..arrived };
    regs.clear();
    t.on_status(&nack, &mut state, &mut regs);
    assert_eq!(
        t.outcome(),
        Some(Err(Error::AcknowledgeCheckFailed(AcknowledgeCheckFailedReason::Unknown)))
    );
    let mut expected = reset_of(Variant::Esp32C3);
    expected.extend(recovery_of(&m));
    assert_eq!(regs, expected);
    assert_eq!(t.control.cursor, 0);
    assert_eq!(t.into_received(), vec![0x55]);
}

#[test]
fn a_wedged_bus_times_out_after_the_bound() {
    let m = master(Variant::Esp32);
    let mut state = State::new();
    let mut regs = Vec::new();
    let mut t = m.write(ADDRESS, &[1], &mut regs);
    regs.clear();
    let mut polls = 0u32;
    while t.awaiting() != Awaiting::Nothing {
        t.on_status(&quiet(), &mut state, &mut regs);
        polls += 1;
    }
    assert_eq!(polls, MAX_ITERATIONS);
    assert_eq!(t.outcome(), Some(Err(Error::Timeout)));
    assert_eq!(regs, recovery_of(&m));
}

#[test]
fn unfinished_commands_fail_the_transfer() {
    let m = master(Variant::Esp32C3);
    let done = CommandStatus { bits: 0x8000_0801, is_end: false, done: true };
    let end = CommandStatus { bits: 0x2000, is_end: true, done: false };
    let empty = CommandStatus { bits: 0, is_end: false, done: false };
    let open = CommandStatus { bits: 0x0801, is_end: false, done: false };
    let mut regs = Vec::new();
    let mut t = m.write(ADDRESS, &[1], &mut regs);
    let status = Status { commands: vec![done, done, end, empty], ..willing() };
    assert_eq!(run(&mut t, &status, &[], &mut regs), Ok(()));
    let mut regs = Vec::new();
    let mut t = m.write(ADDRESS, &[1], &mut regs);
    let status = Status { commands: vec![done, open, end, empty], ..willing() };
    assert_eq!(run(&mut t, &status, &[], &mut regs), Err(Error::ExecutionIncomplete));
    assert!(regs.ends_with(&recovery_of(&m)));
}

#[test]
fn parked_write_waits_for_wakes() {
    let none = InterruptFlags::none();
    let faults = InterruptFlags { arbitration_lost: true, time_out: true, nack: true, ..none };
    let mut setup = Vec::new();
    let m = master(Variant::Esp32S3).into_async(&mut setup);
    assert_eq!(m.mode, DriverMode::Async);
    let every = InterruptFlags { end_detect: true, trans_complete: true, txfifo_wm: true, ..none };
    assert_eq!(
        setup,
        vec![RegisterWrite::InterruptDisable(every), RegisterWrite::InterruptClear(every)]
    );
    let mut state = State::new();
    let mut regs = Vec::new();
    let mut t = m.write(ADDRESS, &[0xAA], &mut regs);
    assert_eq!(t.control.phase, Phase::Fill);
    t.on_status(&quiet(), &mut state, &mut regs);
    t.on_status(&quiet(), &mut state, &mut regs);
    assert_eq!(t.control.phase, Phase::Stream(Watermark::Check));
    regs.clear();
    t.on_status(&quiet(), &mut state, &mut regs);
    let listen = RegisterWrite::InterruptEnable(InterruptFlags { txfifo_wm: true, ..faults });
    assert_eq!(regs, vec![listen]);
    assert_eq!(t.awaiting(), Awaiting::Status);
    let waiting = Status { enabled: every, ..quiet() };
    state.wake();
    t.on_status(&waiting, &mut state, &mut regs);
    assert_eq!(t.awaiting(), Awaiting::Wake);
    assert_eq!(state.waker, Wake::Pending);
    t.on_status(&waiting, &mut state, &mut regs);
    assert_eq!(t.awaiting(), Awaiting::Wake);
    let fired = Status { enabled: InterruptFlags { txfifo_wm: false, ..every }, ..quiet() };
    t.on_status(&fired, &mut state, &mut regs);
    assert_eq!(t.control.phase, Phase::Stream(Watermark::Second));
    assert_eq!(t.awaiting(), Awaiting::Status);
    t.on_status(&fired, &mut state, &mut regs);
    assert_eq!(t.control.phase, Phase::Park { reading: false });
    assert_eq!(
        regs,
        vec![
            listen,
            RegisterWrite::InterruptClear(InterruptFlags { txfifo_wm: true, ..none }),
            listen
        ]
    );
    regs.clear();
    t.on_status(&quiet(), &mut state, &mut regs);
    assert_eq!(t.control.phase, Phase::Wait { reading: false });
    assert_eq!(
        regs,
        vec![
            RegisterWrite::InterruptEnable(InterruptFlags { trans_complete: true, ..faults }),
            RegisterWrite::InterruptEnable(InterruptFlags { end_detect: true, ..faults }),
        ]
    );
    t.on_status(&waiting, &mut state, &mut regs);
    assert_eq!(t.awaiting(), Awaiting::Wake);
    assert_eq!(t.control.remaining, 0);
    let stopped = Status { enabled: InterruptFlags { trans_complete: false, ..every }, ..quiet() };
    t.on_status(&stopped, &mut state, &mut regs);
    assert_eq!(t.outcome(), Some(Ok(())));
}

#[test]
fn parked_wait_returns_a_fault_and_recovers() {
    let m = master(Variant::Esp32S2).into_async(&mut Vec::new());
    let mut state = State::new();
    let mut regs = Vec::new();
    let mut t = m.read(ADDRESS, 2, &mut regs);
    assert_eq!(t.control.phase, Phase::Park { reading: true });
    t.on_status(&quiet(), &mut state, &mut regs);
    assert_eq!(t.control.phase, Phase::Wait { reading: true });
    regs.clear();
    let lost = Status {
        raw: InterruptFlags { arbitration_lost: true, time_out: true, ..InterruptFlags::none() },
        ..quiet()
    };
    t.on_status(&lost, &mut state, &mut regs);
    assert_eq!(t.outcome(), Some(Err(Error::Timeout)));
    assert_eq!(regs, recovery_of(&m));
    assert!(regs.ends_with(&reset_of(Variant::Esp32S2)));
}

#[test]
fn parked_read_on_a_fifo_limited_family() {
    let m = master(Variant::Esp32S2).into_async(&mut Vec::new());
    let mut regs = Vec::new();
    let mut t = m.read(ADDRESS, 2, &mut regs);
    assert_eq!(run(&mut t, &willing(), &[4, 5], &mut regs), Ok(()));
    assert_eq!(t.into_received(), vec![4, 5]);
}

#[test]
fn first_family_yields_between_the_polls_of_an_async_wait() {
    let m = master(Variant::Esp32).into_async(&mut Vec::new());
    let mut state = State::new();
    state.wake();
    let mut regs = Vec::new();
    let mut t = m.write(ADDRESS, &[1], &mut regs);
    assert_eq!(
        t.control,
        Control {
            cursor: 0,
            phase: Phase::Wait { reading: false },
            index: 0,
            remaining: MAX_ITERATIONS / 10,
            parked: false
        }
    );
    assert_eq!(t.awaiting(), Awaiting::Status);
    regs.clear();
    t.on_status(&quiet(), &mut state, &mut regs);
    assert_eq!(t.awaiting(), Awaiting::Yield);
    assert_eq!(state.waker, Wake::Ready);
    let mut polls = 1u32;
    while t.awaiting() != Awaiting::Nothing {
        t.on_status(&quiet(), &mut state, &mut regs);
        polls += 1;
    }
    assert_eq!(polls, 100_000);
    assert_eq!(t.outcome(), Some(Err(Error::Timeout)));
}

#[test]
fn transfer_of_given_segments() {
    let segments = vec![Segment {
        kind: OpKind::Read,
        start: false,
        stop: false,
        will_continue: false,
        len: 255,
        data: Vec::new(),
    }];
    let recovery = vec![RegisterWrite::PeripheralReset];
    let mut regs = Vec::new();
    let t = Transfer::new(
        driver(Variant::Esp32C3),
        DriverMode::Blocking,
        ADDRESS,
        segments,
        recovery,
        &mut regs,
    );
    assert_eq!(t.outcome(), Some(Err(Error::FifoExceeded)));
    assert_eq!(regs.last(), Some(&RegisterWrite::PeripheralReset));
    let segments = vec![Segment {
        kind: OpKind::Read,
        start: true,
        stop: true,
        will_continue: false,
        len: 33,
        data: Vec::new(),
    }];
    let mut regs = Vec::new();
    let t = Transfer::new(
        driver(Variant::Esp32),
        DriverMode::Blocking,
        ADDRESS,
        segments,
        Vec::new(),
        &mut regs,
    );
    assert_eq!(t.outcome(), Some(Err(Error::FifoExceeded)));
}

#[test]
fn master_is_created_with_a_setup_or_not_at_all() {
    let mut regs = Vec::new();
    let m = I2cMaster::new(info(Variant::Esp32C3), Config::default(), 40_000_000, &mut regs).unwrap();
    assert_eq!(m.mode, DriverMode::Blocking);
    assert_eq!(m.i2c, I2c { info: info(Variant::Esp32C3), config: Config::default(), source_clock: 40_000_000 });
    let mut setup = Vec::new();
    assert_eq!(m.i2c.driver().setup(&Config::default(), 40_000_000, &mut setup), Ok(()));
    assert_eq!(regs, setup);
    let mut regs = Vec::new();
    let config = Config::default().with_frequency(0);
    assert_eq!(
        I2cMaster::new(info(Variant::Esp32C3), config, 40_000_000, &mut regs),
        Err(ConfigError::FrequencyInvalid)
    );
    let config = Config::default().with_timeout(BusTimeout::Disabled);
    assert_eq!(
        I2cMaster::new(info(Variant::Esp32), config, 80_000_000, &mut regs),
        Err(ConfigError::TimeoutInvalid)
    );
    assert!(regs.is_empty());
}

#[test]
fn a_rejected_configuration_leaves_the_old_one() {
    let mut m = master(Variant::Esp32C3);
    let mut regs = Vec::new();
    let fast = Config::default().with_frequency(400_000);
    assert_eq!(m.apply_config(&fast, &mut regs), Ok(()));
    assert_eq!(m.i2c.config, fast);
    assert!(regs.contains(&RegisterWrite::SclLowPeriod(49)));
    regs.clear();
    let bad = Config::default().with_frequency(40_000_000);
    assert_eq!(m.apply_config(&bad, &mut regs), Err(ConfigError::FrequencyInvalid));
    assert_eq!(m.i2c.config, fast);
    assert!(regs.is_empty());
    let blocking = m.into_async(&mut regs).into_blocking();
    assert_eq!(blocking.mode, DriverMode::Blocking);
    assert_eq!(blocking.i2c.config, fast);
}

#[test]
fn master_listens_for_events() {
    let none = InterruptFlags::none();
    let mut m = master(Variant::Esp32C3);
    let mut set = EventSet::new();
    set.insert(Event::TxComplete);
    let mut regs = Vec::new();
    m.listen(set, &mut regs);
    m.unlisten(set, &mut regs);
    m.clear_interrupts(set, &mut regs);
    m.set_interrupt_handler(&mut regs);
    let flags = InterruptFlags { trans_complete: true, ..none };
    let every = InterruptFlags { end_detect: true, trans_complete: true, txfifo_wm: true, ..none };
    assert_eq!(
        regs,
        vec![
            RegisterWrite::InterruptEnable(flags),
            RegisterWrite::InterruptDisable(flags),
            RegisterWrite::InterruptClear(flags),
            RegisterWrite::InterruptDisable(every),
            RegisterWrite::InterruptClear(every),
        ]
    );
    let status = with_raw(InterruptFlags { trans_complete: true, ..none });
    assert_eq!(m.interrupts(&status), set);
}

use uarc::core0::{Action, Core0, Delivery};
use uarc::{Com, Core, CoreError, Permission, SenderBus};

fn owner() -> Permission {
    Permission { privilege: 1, address: 0 }
}

fn incepted(memory: usize, program: Vec<u8>) -> Core0<i8> {
    let mut core: Core0<i8> = Core0::new(memory);
    let bus: SenderBus<i8> = SenderBus::new(0);
    assert!(core.incept(bus.incept(owner(), owner(), program)).is_ok());
    core
}

fn conveyor_of(core: &Core0<i8>) -> Vec<i8> {
    (0..16).map(|i| core.conveyor().get(i).unwrap()).collect()
}

#[test]
fn new_core_is_zeroed_and_idle() {
    let core: Core0<i8> = Core0::new(4);
    assert!(!core.running());
    assert_eq!(core.pc(), 0);
    assert_eq!(core.dcs(), [0, 0, 0, 0]);
    assert!(!core.carry());
    assert!(!core.overflow());
    assert!(!core.interrupt());
    assert_eq!(core.permission(), Permission::default());
    assert!(core.program().is_empty());
    assert_eq!(core.memory(), 4);
    for a in 0..4 {
        assert_eq!(core.load(a), Some(0));
    }
    assert_eq!(core.load(4), None);
    assert_eq!(core.load(-1), None);
    assert_eq!(core.dstack().depth(), 0);
    assert_eq!(core.cstack().depth(), 0);
    assert_eq!(conveyor_of(&core), vec![0; 16]);
    assert!(core.buses().is_empty());
    assert!(core.unaccepted().is_empty());
}

#[test]
fn idle_core_waits_for_inception() {
    let mut core: Core0<i8> = Core0::new(4);
    core.push(1);
    assert_eq!(core.step(), Ok(Action::AwaitInception));
    assert_eq!(core.dstack().words(), &vec![1]);
    assert!(!core.running());
}

#[test]
fn inception_loads_program_and_permission() {
    let mut core: Core0<i8> = Core0::new(4);
    core.push_frame(3, [1, 2, 3, 4], false);
    assert_eq!(core.execute(0x0F), Ok(()));
    assert_eq!(core.pc(), 3);
    let bus: SenderBus<i8> = SenderBus::new(2);
    let target = Permission { privilege: 4, address: 17 };
    assert!(core.incept(bus.incept(owner(), target, vec![0x0D, 0x08])).is_ok());
    assert!(core.running());
    assert_eq!(core.pc(), 0);
    assert_eq!(core.permission(), target);
    assert_eq!(core.program(), &vec![0x0D, 0x08]);
    assert_eq!(core.dcs(), [1, 2, 3, 4]);
}

#[test]
fn running_core_gives_an_inception_back() {
    let mut core = incepted(4, vec![0x0D]);
    let bus: SenderBus<i8> = SenderBus::new(1);
    let other = Permission { privilege: 9, address: 9 };
    let back = core.incept(bus.incept(other, other, vec![0x08])).unwrap_err();
    assert_eq!(back.permission, other);
    assert_eq!(back.bus, 1);
    assert_eq!(back.data, (other, vec![0x08]));
    assert_eq!(core.program(), &vec![0x0D]);
    assert_eq!(core.permission(), owner());
    assert!(core.running());
}

#[test]
fn fetch_outside_the_program_is_an_address_error() {
    let mut core = incepted(4, vec![]);
    assert_eq!(core.fetch(), None);
    assert_eq!(core.step(), Err(CoreError::AddressOutOfRange));
    assert!(core.running());
    assert_eq!(core.pc(), 0);

    let mut core = incepted(4, vec![0x0F]);
    core.push_frame(1, [0; 4], false);
    assert_eq!(core.step(), Ok(Action::Continue));
    assert_eq!(core.pc(), 1);
    assert_eq!(core.step(), Err(CoreError::AddressOutOfRange));

    let mut core = incepted(4, vec![0x0F]);
    core.push_frame(-1, [0; 4], false);
    assert_eq!(core.step(), Ok(Action::Continue));
    assert_eq!(core.step(), Err(CoreError::AddressOutOfRange));
    assert_eq!(core.pc(), -1);
}

#[test]
fn step_does_not_advance_the_program_counter() {
    let mut core = incepted(0, vec![0x08, 0x09]);
    core.push(5);
    assert_eq!(core.step(), Ok(Action::Continue));
    assert_eq!(core.step(), Ok(Action::Continue));
    assert_eq!(core.pc(), 0);
    assert_eq!(core.dstack().words(), &vec![7]);
}

#[test]
fn reads_replaces_an_address_by_the_word_there() {
    let mut core = incepted(4, vec![0x0E]);
    for (a, w) in [(0, 10), (1, 20), (2, 30), (3, 40)] {
        assert_eq!(core.store(a, w), Ok(()));
    }
    core.push(2);
    assert_eq!(core.step(), Ok(Action::Continue));
    assert_eq!(core.dstack().top(), Some(30));
    assert_eq!(core.dstack().depth(), 1);
}

#[test]
fn reads_outside_memory_is_an_address_error() {
    let mut core = incepted(4, vec![0x0E]);
    core.push(4);
    assert_eq!(core.step(), Err(CoreError::AddressOutOfRange));
    assert_eq!(core.dstack().words(), &vec![4]);
    core.push(-1);
    assert_eq!(core.step(), Err(CoreError::AddressOutOfRange));
    assert_eq!(core.dstack().words(), &vec![4, -1]);
}

#[test]
fn store_outside_memory_is_an_address_error() {
    let mut core: Core0<i8> = Core0::new(2);
    assert_eq!(core.store(2, 5), Err(CoreError::AddressOutOfRange));
    assert_eq!(core.store(-1, 5), Err(CoreError::AddressOutOfRange));
    assert_eq!(core.store(1, 5), Ok(()));
    assert_eq!(core.load(0), Some(0));
    assert_eq!(core.load(1), Some(5));
}

#[test]
fn every_popping_instruction_underflows_on_an_empty_stack() {
    for op in [0x00u8, 0x01, 0x02, 0x03, 0x04, 0x05, 0x06, 0x07, 0x08, 0x09, 0x0B, 0x0C, 0x0E] {
        let mut core = incepted(4, vec![op]);
        assert_eq!(core.step(), Err(CoreError::StackUnderflow));
        assert_eq!(core.execute(op), Err(CoreError::StackUnderflow));
        assert_eq!(core.dstack().depth(), 0);
        assert!(!core.carry());
        assert!(!core.overflow());
    }
}

#[test]
fn rread_reads_relative_to_a_data_counter() {
    let mut core: Core0<i8> = Core0::new(8);
    for a in 0..8 {
        assert_eq!(core.store(a, 100 + a), Ok(()));
    }
    core.push_frame(0, [1, 2, 3, 4], false);
    assert_eq!(core.execute(0x0F), Ok(()));
    for (op, expect) in [(0x00u8, 103), (0x01, 104), (0x02, 105), (0x03, 106)] {
        core.push(2);
        assert_eq!(core.execute(op), Ok(()));
        assert_eq!(core.dstack().top(), Some(expect));
    }
    assert_eq!(core.dstack().depth(), 4);
    core.push(-1);
    assert_eq!(core.execute(0x00), Ok(()));
    assert_eq!(core.dstack().top(), Some(100));
}

#[test]
fn rread_outside_memory_is_an_address_error() {
    let mut core: Core0<i8> = Core0::new(8);
    core.push_frame(0, [1, 127, 3, 4], false);
    assert_eq!(core.execute(0x0F), Ok(()));
    core.push(7);
    assert_eq!(core.execute(0x00), Err(CoreError::AddressOutOfRange));
    assert_eq!(core.dstack().words(), &vec![7]);
    core.push(-2);
    assert_eq!(core.execute(0x00), Err(CoreError::AddressOutOfRange));
    assert_eq!(core.dstack().words(), &vec![7, -2]);
    // 127 + 1 wraps to -128, which is no address
    core.push(1);
    assert_eq!(core.execute(0x01), Err(CoreError::AddressOutOfRange));
    assert_eq!(core.dstack().words(), &vec![7, -2, 1]);
}

#[test]
fn add_sums_with_memory_and_leaves_memory_alone() {
    let mut core: Core0<i8> = Core0::new(4);
    assert_eq!(core.store(0, 100), Ok(()));
    assert_eq!(core.store(1, -100), Ok(()));
    assert_eq!(core.store(2, 5), Ok(()));
    core.push_frame(0, [0, 1, 2, 9], false);
    assert_eq!(core.execute(0x0F), Ok(()));

    core.push(100);
    assert_eq!(core.execute(0x04), Ok(()));
    assert_eq!(core.dstack().top(), Some(-56));
    assert!(core.overflow());
    assert!(!core.carry());

    core.push(-100);
    assert_eq!(core.execute(0x05), Ok(()));
    assert_eq!(core.dstack().top(), Some(56));
    assert!(core.overflow());
    assert!(core.carry());

    core.push(-7);
    assert_eq!(core.execute(0x06), Ok(()));
    assert_eq!(core.dstack().top(), Some(-2));
    assert!(!core.overflow());
    assert!(!core.carry());

    assert_eq!(core.dstack().words(), &vec![-56, 56, -2]);
    assert_eq!(core.load(0), Some(100));
    assert_eq!(core.load(1), Some(-100));
    assert_eq!(core.load(2), Some(5));

    core.push(1);
    assert_eq!(core.execute(0x07), Err(CoreError::AddressOutOfRange));
    assert_eq!(core.dstack().top(), Some(1));
    assert!(!core.overflow());
    assert!(!core.carry());
}

#[test]
fn inc_and_dec_set_value_and_flags() {
    let mut core: Core0<i8> = Core0::new(0);
    core.push(127);
    assert_eq!(core.execute(0x08), Ok(()));
    assert_eq!(core.dstack().top(), Some(-128));
    assert!(core.overflow());
    assert!(!core.carry());

    assert_eq!(core.execute(0x09), Ok(()));
    assert_eq!(core.dstack().top(), Some(127));
    assert!(core.overflow());
    assert!(core.carry());

    core.push(0);
    assert_eq!(core.execute(0x09), Ok(()));
    assert_eq!(core.dstack().top(), Some(-1));
    assert!(!core.overflow());
    assert!(!core.carry());

    assert_eq!(core.execute(0x08), Ok(()));
    assert_eq!(core.dstack().top(), Some(0));
    assert!(!core.overflow());
    assert!(core.carry());
    assert_eq!(core.dstack().words(), &vec![127, 0]);
}

#[test]
fn carry_with_clear_flag_leaves_the_stack_alone() {
    let mut core: Core0<i8> = Core0::new(0);
    core.push(127);
    assert_eq!(core.execute(0x08), Ok(()));
    assert!(core.overflow());
    assert!(!core.carry());
    assert_eq!(core.execute(0x0A), Ok(()));
    assert_eq!(core.dstack().words(), &vec![-128]);
    assert!(!core.overflow());
    assert!(!core.carry());
}

#[test]
fn carry_with_clear_flag_needs_no_operand() {
    let mut core: Core0<i8> = Core0::new(0);
    assert_eq!(core.execute(0x0A), Ok(()));
    assert_eq!(core.dstack().depth(), 0);
    assert!(!core.overflow());
    assert!(!core.carry());
}

#[test]
fn carry_with_set_flag_increments_the_top() {
    let mut core: Core0<i8> = Core0::new(0);
    core.push(-1);
    assert_eq!(core.execute(0x08), Ok(()));
    assert!(core.carry());
    core.push(41);
    assert_eq!(core.execute(0x0A), Ok(()));
    assert_eq!(core.dstack().words(), &vec![0, 42]);
    assert!(!core.overflow());
    assert!(!core.carry());

    core.push(-1);
    assert_eq!(core.execute(0x08), Ok(()));
    assert!(core.carry());
    core.push(127);
    assert_eq!(core.execute(0x0A), Ok(()));
    assert_eq!(core.dstack().top(), Some(-128));
    assert!(core.overflow());
    assert!(!core.carry());
}

#[test]
fn borrow_with_set_flag_leaves_the_stack_alone() {
    let mut core: Core0<i8> = Core0::new(0);
    core.push(-128);
    assert_eq!(core.execute(0x09), Ok(()));
    assert!(core.overflow());
    assert!(core.carry());
    assert_eq!(core.execute(0x0B), Ok(()));
    assert_eq!(core.dstack().words(), &vec![127]);
    assert!(!core.overflow());
    assert!(core.carry());
}

#[test]
fn borrow_with_clear_flag_decrements_the_top() {
    let mut core: Core0<i8> = Core0::new(0);
    core.push(0);
    assert_eq!(core.execute(0x09), Ok(()));
    assert!(!core.carry());
    core.push(-128);
    assert_eq!(core.execute(0x0B), Ok(()));
    assert_eq!(core.dstack().words(), &vec![-1, 127]);
    assert!(core.overflow());
    assert!(core.carry());
}

#[test]
fn inv_complements_the_top() {
    let mut core: Core0<i8> = Core0::new(0);
    core.push(0x0F);
    assert_eq!(core.execute(0x0C), Ok(()));
    assert_eq!(core.dstack().top(), Some(!0x0Fi8));
    assert_eq!(core.execute(0x0C), Ok(()));
    assert_eq!(core.dstack().words(), &vec![0x0F]);
    assert!(!core.carry());
    assert!(!core.overflow());
}

#[test]
fn flush_and_undefined_opcodes_do_nothing() {
    let mut core = incepted(2, vec![0x0D]);
    core.push(3);
    assert_eq!(core.step(), Ok(Action::Continue));
    for op in [0x0Du8, 0x13, 0x14, 0x40, 0x7F, 0x80, 0xFE, 0xFF] {
        assert_eq!(core.execute(op), Ok(()));
    }
    assert_eq!(core.dstack().words(), &vec![3]);
    assert_eq!(core.pc(), 0);
    assert_eq!(core.dcs(), [0; 4]);
    assert!(core.running());
    assert!(!core.carry());
    assert!(!core.overflow());
    assert!(!core.interrupt());
}

#[test]
fn receive_opcode_alone_does_nothing() {
    let mut core: Core0<i8> = Core0::new(0);
    core.push(3);
    assert_eq!(core.execute(0x12), Ok(()));
    assert_eq!(core.dstack().words(), &vec![3]);
    assert_eq!(conveyor_of(&core), vec![0; 16]);
}

#[test]
fn ret_restores_the_saved_context() {
    let mut core = incepted(0, vec![0x0F, 0x0D, 0x0D]);
    core.push_frame(2, [9, 8, 7, 6], false);
    core.push_frame(1, [1, 2, 3, 4], true);
    assert_eq!(core.step(), Ok(Action::Continue));
    assert_eq!(core.pc(), 1);
    assert_eq!(core.dcs(), [1, 2, 3, 4]);
    assert!(core.interrupt());
    assert_eq!(core.cstack().depth(), 1);
    assert_eq!(core.execute(0x0F), Ok(()));
    assert_eq!(core.pc(), 2);
    assert_eq!(core.dcs(), [9, 8, 7, 6]);
    assert!(core.interrupt());
    assert_eq!(core.cstack().depth(), 0);
}

#[test]
fn ret_without_a_frame_underflows() {
    let mut core = incepted(0, vec![0x0F]);
    core.push(1);
    assert_eq!(core.step(), Err(CoreError::CallStackUnderflow));
    assert_eq!(core.pc(), 0);
    assert_eq!(core.dcs(), [0; 4]);
    assert!(!core.interrupt());
    assert_eq!(core.dstack().words(), &vec![1]);
}

#[test]
fn ien_enables_the_selected_buses_only() {
    let mut core: Core0<i8> = Core0::new(0);
    for n in 0..4 {
        core.append_sender(SenderBus::new(n));
    }
    assert!(core.select(1, true));
    assert!(core.select(3, true));
    assert!(!core.select(4, true));
    assert_eq!(core.execute(0x10), Ok(()));
    let flags: Vec<(bool, bool)> = core.buses().iter().map(|b| (b.selected, b.enabled)).collect();
    assert_eq!(flags, vec![(false, false), (true, true), (false, false), (true, true)]);

    assert!(core.select(1, false));
    assert!(core.select(0, true));
    assert_eq!(core.execute(0x10), Ok(()));
    let flags: Vec<(bool, bool)> = core.buses().iter().map(|b| (b.selected, b.enabled)).collect();
    assert_eq!(flags, vec![(true, true), (false, true), (false, false), (true, true)]);
    let ids: Vec<usize> = core.buses().iter().map(|b| b.sender.bus).collect();
    assert_eq!(ids, vec![0, 1, 2, 3]);
}

#[test]
fn idi_disables_every_bus() {
    let mut core: Core0<i8> = Core0::new(0);
    for n in 0..3 {
        core.append_sender(SenderBus::new(n));
    }
    assert!(core.select(0, true));
    assert!(core.select(2, true));
    assert_eq!(core.execute(0x10), Ok(()));
    assert_eq!(core.execute(0x11), Ok(()));
    let flags: Vec<(bool, bool)> = core.buses().iter().map(|b| (b.selected, b.enabled)).collect();
    assert_eq!(flags, vec![(true, false), (false, false), (true, false)]);
}

#[test]
fn interrupt_over_an_enabled_bus_lands_on_the_conveyor() {
    let mut b: Core0<i8> = Core0::new(0);
    let to_a: SenderBus<i8> = SenderBus::new(0);
    let from_a = b.aquire_sender();
    b.append_sender(to_a);
    b.begin();
    assert!(b.select(0, true));
    assert_eq!(b.execute(0x10), Ok(()));
    assert!(b.buses()[0].enabled);
    assert!(b.incept(from_a.incept(owner(), Permission::default(), vec![0x12])).is_ok());

    assert_eq!(b.step(), Ok(Action::AwaitInterrupt));
    match b.recv(from_a.send(owner(), 7)) {
        Delivery::Accepted(back) => assert!(back.is_empty()),
        Delivery::Retained => panic!("an enabled bus was refused"),
    }
    let conveyor = conveyor_of(&b);
    assert_eq!(conveyor.len(), 16);
    assert_eq!(&conveyor[..2], &[7, 0]);
    assert_eq!(&conveyor[2..], &[0; 14]);
}

#[test]
fn interrupts_keep_the_conveyor_at_sixteen() {
    let mut core = incepted(0, vec![0x12]);
    for n in 0..3 {
        core.append_sender(SenderBus::new(n));
        assert!(core.select(n, true));
    }
    assert_eq!(core.execute(0x10), Ok(()));
    let mut expect = vec![0i8; 16];
    for n in 0..40usize {
        let bus = n % 3;
        let value = (n as i8) - 20;
        assert_eq!(core.step(), Ok(Action::AwaitInterrupt));
        match core.recv(Com::new(owner(), bus, value)) {
            Delivery::Accepted(back) => assert!(back.is_empty()),
            Delivery::Retained => panic!("an enabled bus was refused"),
        }
        expect.truncate(14);
        expect.insert(0, bus as i8);
        expect.insert(0, value);
        assert_eq!(conveyor_of(&core), expect);
        assert_eq!(core.conveyor().get(16), None);
    }
}

#[test]
fn interrupt_over_a_masked_bus_is_held_back() {
    let mut core = incepted(0, vec![0x12]);
    for n in 0..3 {
        core.append_sender(SenderBus::new(n));
    }
    assert!(core.select(1, true));
    assert_eq!(core.execute(0x10), Ok(()));
    assert_eq!(core.step(), Ok(Action::AwaitInterrupt));

    assert!(matches!(core.recv(Com::new(owner(), 0, 11)), Delivery::Retained));
    assert!(matches!(core.recv(Com::new(owner(), 2, 22)), Delivery::Retained));
    assert!(matches!(core.recv(Com::new(owner(), 7, 33)), Delivery::Retained));
    assert_eq!(conveyor_of(&core), vec![0; 16]);
    assert_eq!(core.unaccepted().len(), 3);

    match core.recv(Com::new(owner(), 1, 44)) {
        Delivery::Accepted(back) => {
            let seen: Vec<(usize, i8)> = back.iter().map(|m| (m.bus, m.data)).collect();
            assert_eq!(seen, vec![(0, 11), (2, 22), (7, 33)]);
        }
        Delivery::Retained => panic!("an enabled bus was refused"),
    }
    assert!(core.unaccepted().is_empty());
    let conveyor = conveyor_of(&core);
    assert_eq!(&conveyor[..2], &[44, 1]);
    assert_eq!(&conveyor[2..], &[0; 14]);
}

#[test]
fn held_back_interrupt_is_taken_once_its_bus_is_enabled() {
    let mut core = incepted(0, vec![0x12]);
    core.append_sender(SenderBus::new(0));
    core.append_sender(SenderBus::new(1));
    assert!(core.select(1, true));
    assert_eq!(core.execute(0x10), Ok(()));
    assert!(matches!(core.recv(Com::new(owner(), 0, 5)), Delivery::Retained));
    let back = match core.recv(Com::new(owner(), 1, 6)) {
        Delivery::Accepted(back) => back,
        Delivery::Retained => panic!("an enabled bus was refused"),
    };
    assert_eq!(back.len(), 1);
    assert!(core.select(0, true));
    assert_eq!(core.execute(0x10), Ok(()));
    for m in back {
        assert!(matches!(core.recv(m), Delivery::Accepted(_)));
    }
    let conveyor = conveyor_of(&core);
    assert_eq!(&conveyor[..4], &[5, 0, 6, 1]);
}

#[test]
fn no_interrupt_is_taken_after_idi() {
    let mut core = incepted(0, vec![0x12]);
    core.append_sender(SenderBus::new(0));
    assert!(core.select(0, true));
    assert_eq!(core.execute(0x10), Ok(()));
    assert_eq!(core.execute(0x11), Ok(()));
    assert!(matches!(core.recv(Com::new(owner(), 0, 1)), Delivery::Retained));
    assert_eq!(conveyor_of(&core), vec![0; 16]);
}

#[test]
fn no_interrupt_is_taken_unless_the_core_stands_at_a_receive() {
    let mut core = incepted(0, vec![0x0D]);
    core.append_sender(SenderBus::new(0));
    assert!(core.select(0, true));
    assert_eq!(core.execute(0x10), Ok(()));
    assert!(matches!(core.recv(Com::new(owner(), 0, 1)), Delivery::Retained));

    let mut idle: Core0<i8> = Core0::new(0);
    idle.append_sender(SenderBus::new(0));
    assert!(idle.select(0, true));
    assert_eq!(idle.execute(0x10), Ok(()));
    assert!(matches!(idle.recv(Com::new(owner(), 0, 1)), Delivery::Retained));
    assert_eq!(conveyor_of(&idle), vec![0; 16]);
    assert_eq!(idle.unaccepted().len(), 1);
}

#[test]
fn bus_index_is_cast_to_the_word() {
    let mut core = incepted(0, vec![0x12]);
    for n in 0..201 {
        core.append_sender(SenderBus::new(n));
    }
    assert!(core.select(200, true));
    assert_eq!(core.execute(0x10), Ok(()));
    assert!(matches!(core.recv(Com::new(owner(), 200, 9)), Delivery::Accepted(_)));
    let conveyor = conveyor_of(&core);
    assert_eq!(&conveyor[..2], &[9, -56]);
}

#[test]
fn kill_of_sufficient_privilege_ends_the_program() {
    let mut core = incepted(2, vec![0x08]);
    assert_eq!(core.store(1, 9), Ok(()));
    core.append_sender(SenderBus::new(0));
    assert!(core.select(0, true));
    assert_eq!(core.execute(0x10), Ok(()));
    core.push(-1);
    core.push_frame(0, [1, 2, 3, 4], true);
    core.push_frame(0, [5, 6, 7, 8], true);
    assert_eq!(core.execute(0x0F), Ok(()));
    assert_eq!(core.step(), Ok(Action::Continue));
    assert!(core.carry());
    assert!(core.interrupt());

    assert!(core.kill(Com::new(Permission { privilege: 1, address: 5 }, 0, ())));
    assert!(!core.running());
    assert_eq!(core.step(), Ok(Action::AwaitInception));
    assert!(core.program().is_empty());
    assert_eq!(core.pc(), 0);
    assert_eq!(core.dcs(), [0; 4]);
    assert!(!core.carry());
    assert!(!core.overflow());
    assert!(!core.interrupt());
    assert_eq!(core.dstack().depth(), 0);
    assert_eq!(core.cstack().depth(), 0);
    assert_eq!(core.permission(), owner());
    assert_eq!(core.load(1), Some(9));
    assert!(core.buses()[0].enabled);

    let bus: SenderBus<i8> = SenderBus::new(0);
    assert!(core.incept(bus.incept(owner(), Permission::default(), vec![0x0D])).is_ok());
    assert!(core.running());
    assert_eq!(core.step(), Ok(Action::Continue));
}

#[test]
fn kill_of_lower_privilege_is_ignored() {
    let mut core: Core0<i8> = Core0::new(0);
    let bus: SenderBus<i8> = SenderBus::new(0);
    let high = Permission { privilege: 5, address: 1 };
    assert!(core.incept(bus.incept(owner(), high, vec![0x08])).is_ok());
    core.push(3);
    assert!(!core.kill(bus.kill(Permission { privilege: 4, address: 1 })));
    assert!(core.running());
    assert_eq!(core.program(), &vec![0x08]);
    assert_eq!(core.dstack().words(), &vec![3]);
    assert!(core.kill(bus.kill(Permission { privilege: 5, address: 2 })));
    assert!(!core.running());
}

#[test]
fn kill_of_an_idle_core_is_ignored() {
    let mut core: Core0<i8> = Core0::new(0);
    core.push(3);
    assert!(!core.kill(Com::new(Permission { privilege: 255, address: 0 }, 0, ())));
    assert_eq!(core.dstack().words(), &vec![3]);
}

#[test]
fn wider_words_reach_further_memory() {
    let mut core: Core0<i16> = Core0::new(300);
    assert_eq!(core.store(299, -5), Ok(()));
    core.push(299);
    assert_eq!(core.execute(0x0E), Ok(()));
    assert_eq!(core.dstack().top(), Some(-5));
    core.push(i16::MAX);
    assert_eq!(core.execute(0x08), Ok(()));
    assert_eq!(core.dstack().top(), Some(i16::MIN));
    assert!(core.overflow());

    let mut core: Core0<i64> = Core0::new(1);
    core.push(i64::MIN);
    assert_eq!(core.execute(0x09), Ok(()));
    assert_eq!(core.dstack().top(), Some(i64::MAX));
    assert!(core.overflow());
    assert!(core.carry());

    let mut core: Core0<i32> = Core0::new(1);
    core.push(-1);
    assert_eq!(core.execute(0x08), Ok(()));
    assert_eq!(core.dstack().top(), Some(0));
    assert!(core.carry());
}

#[test]
fn run_uses_up_its_budget() {
    let mut core = incepted(0, vec![0x08]);
    core.push(120);
    assert_eq!(core.run(5), Ok(Action::Continue));
    assert_eq!(core.dstack().words(), &vec![125]);
    assert_eq!(core.run(0), Ok(Action::Continue));
    assert_eq!(core.dstack().words(), &vec![125]);
    assert_eq!(core.run(4), Ok(Action::Continue));
    assert_eq!(core.dstack().words(), &vec![-127]);
    assert!(!core.overflow());
}

#[test]
fn run_ends_at_the_first_step_that_cannot_continue() {
    let mut core = incepted(3, vec![0x0E]);
    assert_eq!(core.store(0, 1), Ok(()));
    assert_eq!(core.store(1, 2), Ok(()));
    assert_eq!(core.store(2, 9), Ok(()));
    core.push(0);
    assert_eq!(core.run(100), Err(CoreError::AddressOutOfRange));
    assert_eq!(core.dstack().words(), &vec![9]);

    let mut core = incepted(0, vec![0x12]);
    assert_eq!(core.run(100), Ok(Action::AwaitInterrupt));
    let mut core: Core0<i8> = Core0::new(0);
    assert_eq!(core.run(100), Ok(Action::AwaitInception));
}

#[test]
fn run_in_two_parts_is_run_at_once() {
    for (first, second) in [(0usize, 7usize), (3, 4), (7, 0), (2, 20), (20, 2)] {
        let mut whole = incepted(0, vec![0x08]);
        let mut parts = incepted(0, vec![0x08]);
        whole.push(110);
        parts.push(110);
        let at_once = whole.run(first + second);
        let begun = parts.run(first);
        let ended = parts.run(second);
        assert_eq!(begun, Ok(Action::Continue));
        assert_eq!(ended, at_once);
        assert_eq!(parts.dstack().words(), whole.dstack().words());
        assert_eq!(parts.overflow(), whole.overflow());
        assert_eq!(parts.carry(), whole.carry());
    }
    let mut whole = incepted(1, vec![0x0E]);
    let mut parts = incepted(1, vec![0x0E]);
    assert_eq!(whole.store(0, 5), Ok(()));
    assert_eq!(parts.store(0, 5), Ok(()));
    whole.push(0);
    parts.push(0);
    assert_eq!(whole.run(6), Err(CoreError::AddressOutOfRange));
    assert_eq!(parts.run(3), Err(CoreError::AddressOutOfRange));
    assert_eq!(parts.run(3), Err(CoreError::AddressOutOfRange));
    assert_eq!(parts.dstack().words(), whole.dstack().words());
}

#[test]
fn no_instruction_touches_memory_program_or_stack_depth() {
    for op in 0..=255u8 {
        let mut core = incepted(4, vec![op, 0x0D]);
        for (a, w) in [(0, 3), (1, 2), (2, 1), (3, 0)] {
            assert_eq!(core.store(a, w), Ok(()));
        }
        core.append_sender(SenderBus::new(0));
        assert!(core.select(0, true));
        core.push_frame(1, [0, 1, 2, 3], false);
        core.push(1);
        core.push(2);
        let _ = core.execute(op);
        assert_eq!(core.dstack().depth(), 2);
        assert_eq!(core.dstack().words()[0], 1);
        assert_eq!(core.program(), &vec![op, 0x0D]);
        assert_eq!(core.permission(), owner());
        assert!(core.running());
        assert_eq!(core.memory(), 4);
        for (a, w) in [(0, 3), (1, 2), (2, 1), (3, 0)] {
            assert_eq!(core.load(a), Some(w));
        }
        assert_eq!(conveyor_of(&core), vec![0; 16]);
        assert!(core.unaccepted().is_empty());
        assert_eq!(core.incoming_streams(), 0);
    }
}

#[test]
fn an_error_repeats_until_the_core_is_killed() {
    let mut core = incepted(0, vec![0x0F]);
    for _ in 0..3 {
        assert_eq!(core.step(), Err(CoreError::CallStackUnderflow));
    }
    assert!(core.running());
    assert!(core.kill(Com::new(owner(), 0, ())));
    assert_eq!(core.step(), Ok(Action::AwaitInception));
}

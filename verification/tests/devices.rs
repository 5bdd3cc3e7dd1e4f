use rustos::cpu::{Port, PortIo};
use rustos::keyboard::{Keyboard, Status, OUTPUT_FULL, PARITY_ERROR};
use rustos::pci::{HeaderStep, HeaderType, Pci, PciHeader, PortGranter};
use rustos::pci_probe::{self, ConfigRead};
use rustos::rtl8139::{init_step, transmit_done, InitStep, Rtl8139};
use rustos::rtl8139_basic;
use rustos::console;
use rustos::vga::VGA;

fn ignore(_: u8) {}

fn line(t: &mut console::Terminal, y: usize, n: usize) -> Vec<u8> {
    (0..n).map(|x| t.get((x, y)).unwrap().0).collect()
}

#[test]
fn keyboard_translates_key_codes() {
    let k = Keyboard::new(ignore as fn(u8), Port::new(0x64), Port::new(0x60));
    assert_eq!(k.got_interrupted(0), Some(b'?'));
    assert_eq!(k.got_interrupted(2), Some(b'1'));
    assert_eq!(k.got_interrupted(16), Some(b'q'));
    assert_eq!(k.got_interrupted(28), Some(b'\n'));
    assert_eq!(k.got_interrupted(43), Some(b'\\'));
    assert_eq!(k.got_interrupted(57), Some(b' '));
    assert_eq!(k.got_interrupted(58), Some(b'?'));
    assert_eq!(k.got_interrupted(59), None);
    assert_eq!(k.got_interrupted(255), None);
}

#[test]
fn keyboard_ports_callback_and_status() {
    let mut k = Keyboard::new(1u32, Port::new(0x64), Port::new(0x60));
    assert_eq!(k.control_port().number(), 0x64);
    assert_eq!(k.data_port().number(), 0x60);
    assert_eq!(*k.callback(), 1);
    k.register_callback(2);
    assert_eq!(*k.callback(), 2);
    let s = k.get_status(0x81);
    assert_eq!(s.bits(), 0x81);
    assert!(s.contains(OUTPUT_FULL));
    assert!(s.contains(PARITY_ERROR));
    assert!(!s.contains(0x02));
    assert!(Status::from_bits(0xff).is_some());
}

#[test]
fn pci_config_addresses() {
    assert_eq!(Pci::build_address(0, 3, 0, 0x10), 0x80001810);
    assert_eq!(Pci::build_address(0xff, 31, 4, 0xfc), 0x80fffcfc);
    assert_eq!(Pci::build_address(1, 0, 0, 0), 0x80010000);
}

#[test]
fn pci_read_plans_address_then_data() {
    let mut p = Pci::new();
    p.init();
    assert_eq!(p.read(2, 5, 0, 8), vec![PortIo::OutL(0xcf8, 0x80022808), PortIo::InL(0xcfc)]);
}

#[test]
fn pci_read_bytes_addresses() {
    let p = Pci::new();
    assert_eq!(p.read_bytes(0, 1, 0, 16), vec![0x80000800, 0x80000804, 0x80000808, 0x8000080c]);
    // the high byte of the offset is the function number
    assert_eq!(p.read_bytes(0, 0, 0x4f8, 8), vec![0x800004f8, 0x800004fc]);
    assert!(p.read_bytes(0, 0, 0, 0).is_empty());
}

fn rtl_config() -> Vec<u32> {
    let mut w = vec![0u32; 16];
    w[0] = 0x8139_10ec;
    w[1] = 0x0290_0107;
    w[2] = 0x0200_0010;
    w[3] = 0x0000_4010;
    w[4] = 0x0000_c001;
    w[11] = 0x1100_1af4;
    w[15] = 0x4020_010b;
    w
}

/// Drives `read_header` over the configuration words `w` of slot (bus,
/// device): gives the header and the number of words read.
fn read_header_of(p: &Pci, bus: u8, device: u8, w: &[u32]) -> (Option<PciHeader>, usize) {
    let mut reads: Vec<u32> = Vec::new();
    loop {
        match p.read_header(bus, device, &reads) {
            HeaderStep::Read(ops) => {
                assert_eq!(ops.len(), 2);
                assert_eq!(ops[1], PortIo::InL(0xcfc));
                match ops[0] {
                    PortIo::OutL(0xcf8, address) => {
                        assert_eq!(address & 0xffff_ff00, Pci::build_address(bus, device, 0, 0));
                        reads.push(w[((address & 0xfc) / 4) as usize]);
                    }
                    other => panic!("unexpected operation {:?}", other),
                }
            }
            HeaderStep::Done(h) => return (h, reads.len()),
        }
    }
}

#[test]
fn pci_read_header_parses_fields() {
    let p = Pci::new();
    let (h, n) = read_header_of(&p, 0, 3, &rtl_config());
    assert_eq!(n, 17);
    let h = h.unwrap();
    assert_eq!(h.shared.vendor, 0x10ec);
    assert_eq!(h.shared.device, 0x8139);
    assert_eq!(h.shared.command, 0x0107);
    assert_eq!(h.shared.status, 0x0290);
    assert_eq!(h.shared.revision, 0x10);
    assert_eq!(h.shared.class_code, 0x02);
    assert_eq!(h.shared.latency_timer, 0x40);
    assert_eq!(h.shared.header_type, 0);
    match h.rest {
        HeaderType::Basic(b) => {
            assert_eq!(b.base_addresses[0], 0xc001);
            assert_eq!(b.subsystem_vendor, 0x1af4);
            assert_eq!(b.subsystem, 0x1100);
            assert_eq!(b.interrupt_line, 0x0b);
            assert_eq!(b.interrupt_pin, 0x01);
            assert_eq!(b.max_latency, 0x40);
        }
        HeaderType::Todo => panic!("expected a basic header"),
    }
}

#[test]
fn pci_read_header_absent_bridge_and_unknown() {
    let p = Pci::new();
    let mut absent = vec![0u32; 16];
    absent[0] = 0xffff_ffff;
    // an empty slot: one read, then nothing more
    assert!(matches!(p.read_header(1, 2, &vec![]), HeaderStep::Read(ops) if ops == vec![PortIo::OutL(0xcf8, 0x80011000), PortIo::InL(0xcfc)]));
    assert!(matches!(p.read_header(1, 2, &vec![0xffff_ffff]), HeaderStep::Done(None)));
    assert!(matches!(read_header_of(&p, 1, 2, &absent), (None, 1)));
    let mut bridge = vec![0u32; 16];
    bridge[0] = 0x0001_8086;
    bridge[3] = 0x0001_0000;
    let (h, n) = read_header_of(&p, 0, 1, &bridge);
    assert_eq!(n, 5);
    assert!(matches!(h.unwrap().rest, HeaderType::Todo));
    let mut odd = vec![0u32; 16];
    odd[0] = 0x0001_8086;
    odd[3] = 0x0003_0000;
    assert!(matches!(read_header_of(&p, 0, 1, &odd), (None, 5)));
    // the second read is the first word again, then offsets 4, 8, 12
    assert!(matches!(
        p.read_header(0, 1, &vec![0x0001_8086, 0x0001_8086]),
        HeaderStep::Read(ops) if ops == vec![PortIo::OutL(0xcf8, 0x80000804), PortIo::InL(0xcfc)]
    ));
}

#[test]
fn pci_get_drivers_counts_and_finds_the_card() {
    let p = Pci::new();
    let mut other = vec![0u32; 16];
    other[0] = 0x1237_8086;
    let mut headers = vec![None; 256 * 32];
    headers[1] = read_header_of(&p, 0, 1, &other).0;
    headers[32 * 2 + 3] = read_header_of(&p, 2, 3, &rtl_config()).0;
    let scan = p.get_drivers(&headers);
    assert_eq!(scan.no_device_count, 256 * 32 - 2);
    assert_eq!(scan.device_count, 2);
    assert_eq!(scan.io_offset, 0xc000);
    assert_eq!(
        scan.bus_mastering,
        vec![PortIo::OutL(0xcf8, 0x80021804), PortIo::OutW(0xcfc, 0x0107)]
    );
    assert!(p.bus_master(0, 1, &headers[1]).is_empty());
    assert!(p.bus_master(0, 1, &None).is_empty());
    assert_eq!(
        p.bus_master(2, 3, &headers[32 * 2 + 3]),
        vec![PortIo::OutL(0xcf8, 0x80021804), PortIo::OutW(0xcfc, 0x0107)]
    );
    let card = scan.card.unwrap();
    assert_eq!(card.address(), Rtl8139::new(0xc000).address());
    assert_eq!(card.address()[0], PortIo::InB(0xc000));
}

#[test]
fn pci_get_drivers_without_the_card() {
    let p = Pci::new();
    let headers = vec![None; 256 * 32];
    let scan = p.get_drivers(&headers);
    assert_eq!(scan.no_device_count, 8192);
    assert_eq!(scan.device_count, 0);
    assert_eq!(scan.io_offset, 0);
    assert!(scan.bus_mastering.is_empty());
    assert!(scan.card.is_none());
}

#[test]
fn pci_get_drivers_card_ports_wrap_at_the_top() {
    let p = Pci::new();
    let mut w = rtl_config();
    w[4] = 0xfff1;
    let mut headers = vec![None; 256 * 32];
    headers[5] = read_header_of(&p, 0, 5, &w).0;
    let scan = p.get_drivers(&headers);
    assert_eq!(scan.io_offset, 0xfff0);
    let card = scan.card.unwrap();
    assert_eq!(card.address()[5], PortIo::InB(0xfff5));
    let (_, ops) = card.init(InitStep::Start, 0);
    assert_eq!(ops[0], PortIo::OutB(0x0042, 0));
    assert_eq!(ops[1], PortIo::OutB(0x0027, 0x10));
    let basic = rtl8139_basic::Rtl8139::new(0xfff0);
    assert_eq!(basic.init(InitStep::Start, 0).1[0], PortIo::OutB(0x0042, 0));
}

#[test]
fn port_granter_hands_out_window_ports() {
    let g = PortGranter::new(0xc000, 0x60);
    assert_eq!(g.get(0x37).number(), 0xc037);
    assert_eq!(g.get(0).number(), 0xc000);
}

#[test]
fn probe_read_and_check_devices() {
    let mut p = pci_probe::Pci::new(Port::new(0xcf8), Port::new(0xcfc));
    p.init();
    assert!(matches!(p.read(0, 0, 1, 0), ConfigRead::Value(1)));
    assert!(matches!(p.read(0, 32, 0, 0), ConfigRead::Value(1)));
    match p.read(0, 1, 0, 0) {
        ConfigRead::Ports(ops) => {
            assert_eq!(ops, vec![PortIo::OutL(0xcf8, 0x80000800), PortIo::InL(0xcf8)])
        }
        ConfigRead::Value(_) => panic!("expected port operations"),
    }
    let mut ids = vec![0xffff_ffffu32; 256 * 32];
    ids[0] = 0x1237_8086;
    ids[9] = 0x8139_10ec;
    ids[10] = 0x0000_ffff;
    assert_eq!(p.check_devices(&ids), (8190, 2));
}

#[test]
fn rtl8139_registers_and_address_reads() {
    let r = Rtl8139::new(0xc000);
    assert_eq!(
        r.address(),
        (0..6).map(|i| PortIo::InB(0xc000 + i)).collect::<Vec<_>>()
    );
}

#[test]
fn rtl8139_start_up_sequence() {
    let r = Rtl8139::new(0xc000);
    let (s1, ops1) = r.init(InitStep::Start, 0);
    assert_eq!(s1, InitStep::WaitReset);
    assert_eq!(ops1, vec![PortIo::OutB(0xc052, 0), PortIo::OutB(0xc037, 0x10), PortIo::InB(0xc037)]);
    let (s2, ops2) = r.init(s1, 0x10);
    assert_eq!(s2, InitStep::WaitReset);
    assert_eq!(ops2, vec![PortIo::InB(0xc037)]);
    let (s3, ops3) = r.init(s2, 0x00);
    assert_eq!(s3, InitStep::WaitTransmit);
    assert_eq!(ops3, vec![PortIo::OutB(0xc037, 0x0C), PortIo::InB(0xc037)]);
    let (s4, ops4) = r.init(s3, 0x04);
    assert_eq!(s4, InitStep::WaitTransmit);
    assert_eq!(ops4, vec![PortIo::InB(0xc037)]);
    let (s5, ops5) = r.init(s4, 0x0d);
    assert_eq!(s5, InitStep::Done);
    assert!(ops5.is_empty());
    assert_eq!(init_step(1, 2, InitStep::Done, 0), (InitStep::Done, vec![]));
}

#[test]
fn rtl8139_frames_rotate_through_descriptors() {
    let mut r = Rtl8139::new(0xc000);
    let status = [0xc010u16, 0xc014, 0xc018, 0xc01c, 0xc010];
    let address = [0xc020u16, 0xc024, 0xc028, 0xc02c, 0xc020];
    let mut term = console::Terminal::init_global(VGA::new());
    for k in 0..5 {
        let ops = r.put_frame(0x1000 + k as u32, 60 + k, &mut term);
        assert_eq!(
            ops,
            vec![
                PortIo::OutL(address[k], 0x1000 + k as u32),
                PortIo::OutL(status[k], 60 + k as u32),
                PortIo::InL(status[k])
            ]
        );
    }
    assert_eq!(r.put_frame(0, 0x1234, &mut term)[1], PortIo::OutL(0xc014, 0x234));
    assert_eq!(line(&mut term, 0, 35), b"[DEBUG:src/rtl8139.rs 269]: sending".to_vec());
    assert_eq!(line(&mut term, 0, 44), b"[DEBUG:src/rtl8139.rs 269]: sending 60 bytes".to_vec());
    assert_eq!(line(&mut term, 5, 46), b"[DEBUG:src/rtl8139.rs 269]: sending 4660 bytes".to_vec());
    assert!(transmit_done(0x8000));
    assert!(!transmit_done(0x7fff));
}

#[test]
fn rtl8139_single_descriptor_card() {
    let r = rtl8139_basic::Rtl8139::new(0xd000);
    let mut term = console::Terminal::init_global(VGA::new());
    assert_eq!(
        r.put_frame(0x2000, 0x1005, &mut term),
        vec![
            PortIo::OutL(0xd020, 0x2000),
            PortIo::InL(0xd010),
            PortIo::OutL(0xd010, 5),
            PortIo::InL(0xd010),
            PortIo::InL(0xd010)
        ]
    );
    assert_eq!(line(&mut term, 0, 51), b"[DEBUG:src/rtl8139_basic.rs 85]: sending 4101 bytes".to_vec());
    rtl8139_basic::report_status(&mut term, false, 0x2000);
    rtl8139_basic::report_status(&mut term, true, 0xa005);
    assert_eq!(line(&mut term, 1, 71), b"[DEBUG:src/rtl8139_basic.rs 149]: transmit_status before send is 0x2000".to_vec());
    assert_eq!(line(&mut term, 2, 70), b"[DEBUG:src/rtl8139_basic.rs 147]: transmit_status after send is 0xa005".to_vec());
    let (s, ops) = r.init(InitStep::Start, 0);
    assert_eq!(s, InitStep::WaitReset);
    assert_eq!(ops[0], PortIo::OutB(0xd052, 0));
    assert_eq!(ops[1], PortIo::OutB(0xd037, 0x10));
}

#[test]
fn pci_shared_header_repacks_to_the_words_read() {
    let w = rtl_config();
    let h = read_header_of(&Pci::new(), 0, 0, &w).0.unwrap().shared;
    assert_eq!(h.vendor as u32 | (h.device as u32) << 16, w[0]);
    assert_eq!(h.command as u32 | (h.status as u32) << 16, w[1]);
    assert_eq!(
        h.revision as u32 | (h.prog_if as u32) << 8 | (h.subclass as u32) << 16 | (h.class_code as u32) << 24,
        w[2]
    );
    assert_eq!(
        h.cache_line_size as u32 | (h.latency_timer as u32) << 8 | (h.header_type as u32) << 16 | (h.bist as u32) << 24,
        w[3]
    );
}

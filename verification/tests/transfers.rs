//! Channel lifecycle and simulated transfer runs against the register model.

use imxrt_dma::engine;
use imxrt_dma::error;
use imxrt_dma::interrupt;
use imxrt_dma::memory::Memory;
use imxrt_dma::peripheral;
use imxrt_dma::peripheral::PeripheralModel;
use imxrt_dma::Dma;
use imxrt_dma::ElementSize;
use imxrt_dma::Transfer;

/// Installs a plain linear transfer on a fresh channel of `dma`.
fn program_linear(
    dma: &mut Dma,
    index: usize,
    source: u32,
    destination: u32,
    elements: u16,
    element: ElementSize,
) -> imxrt_dma::Channel {
    let ch = dma.channel(index).unwrap();
    ch.reset(dma);
    let src = Transfer::buffer_linear(source, elements as usize, element);
    let dst = Transfer::buffer_linear(destination, elements as usize, element);
    ch.set_source_transfer(dma, &src);
    ch.set_destination_transfer(dma, &dst);
    ch.set_minor_loop_elements(dma, element, 1);
    ch.set_transfer_iterations(dma, elements);
    ch
}

#[test]
fn reset_leaves_a_fresh_channel_reporting_nothing() {
    let mut edma = Dma::new(8);
    let mut edma3 = Dma::new_edma3(8);
    let mut edma4 = Dma::new_edma4(8);
    for dma in [&mut edma, &mut edma3, &mut edma4] {
        let ch = dma.channel(0).unwrap();
        ch.reset(dma);
        assert!(!ch.is_active(dma));
        assert!(!ch.is_complete(dma));
        assert!(!ch.is_error(dma));
        assert!(!ch.is_enabled(dma));
    }
}

#[test]
fn full_run_mirrors_source_into_hardware_register() {
    let mut dma = Dma::new(4);
    let mut mem = Memory::new(4096);
    for i in 0..128u32 {
        mem.write_byte(0x100 + i, (i as u8).wrapping_mul(3));
    }
    let ch = dma.channel(0).unwrap();
    ch.reset(&mut dma);
    let src = Transfer::buffer_linear(0x100, 32, ElementSize::Four);
    let dst = Transfer::hardware(0x800, ElementSize::Four);
    ch.set_source_transfer(&mut dma, &src);
    ch.set_destination_transfer(&mut dma, &dst);
    ch.set_minor_loop_elements(&mut dma, ElementSize::Four, 1);
    ch.set_transfer_iterations(&mut dma, 32);
    ch.enable(&mut dma);
    assert_eq!(engine::run_transfer(&mut dma, &mut mem, &ch), Ok(true));
    assert!(ch.is_complete(&dma));
    assert!(!ch.is_error(&dma));
    // Every element streamed through the fixed register; it ends holding
    // the last one.
    for b in 0..4u32 {
        assert_eq!(mem.read_byte(0x800 + b), mem.read_byte(0x100 + 124 + b));
    }
}

#[test]
fn full_run_mirrors_source_into_linear_destination() {
    let mut dma = Dma::new(4);
    let mut mem = Memory::new(1024);
    for i in 0..64u32 {
        mem.write_byte(0x40 + i, 0xA0u8.wrapping_add(i as u8));
    }
    let ch = program_linear(&mut dma, 1, 0x40, 0x140, 16, ElementSize::Four);
    ch.enable(&mut dma);
    assert_eq!(engine::run_transfer(&mut dma, &mut mem, &ch), Ok(true));
    for i in 0..64u32 {
        assert_eq!(mem.read_byte(0x140 + i), mem.read_byte(0x40 + i));
    }
}

#[test]
fn end_adjustment_rewinds_the_buffers_for_a_second_run() {
    let mut dma = Dma::new(4);
    let mut mem = Memory::new(512);
    for i in 0..8u32 {
        mem.write_byte(i, 0x11u8.wrapping_mul(1 + i as u8));
    }
    let ch = program_linear(&mut dma, 0, 0x0, 0x100, 8, ElementSize::One);
    ch.enable(&mut dma);
    assert_eq!(engine::run_transfer(&mut dma, &mut mem, &ch), Ok(true));
    for i in 0..8u32 {
        assert_eq!(mem.read_byte(0x100 + i), mem.read_byte(i));
    }
    // The end adjustments rewound both working addresses and completion
    // reloaded the iteration count: a second run, with no reprogramming,
    // moves the buffer again from its start.
    for i in 0..8u32 {
        mem.write_byte(i, 0x80u8.wrapping_add(i as u8));
    }
    ch.clear_complete(&mut dma);
    assert!(!ch.is_complete(&dma));
    assert_eq!(engine::run_transfer(&mut dma, &mut mem, &ch), Ok(true));
    assert!(ch.is_complete(&dma));
    for i in 0..8u32 {
        assert_eq!(mem.read_byte(0x100 + i), mem.read_byte(i));
    }
}

#[test]
fn circular_source_wraps_at_its_power_of_two_boundary() {
    let mut dma = Dma::new(4);
    let mut mem = Memory::new(4096);
    // A 4-element circular buffer of 4-byte elements: 16 bytes, aligned to
    // its size.
    for i in 0..16u32 {
        mem.write_byte(0x200 + i, 0xC0u8.wrapping_add(i as u8));
    }
    let ch = dma.channel(0).unwrap();
    ch.reset(&mut dma);
    let src = Transfer::buffer_circular(0x200, 4, ElementSize::Four).unwrap();
    let dst = Transfer::buffer_linear(0x300, 8, ElementSize::Four);
    ch.set_source_transfer(&mut dma, &src);
    ch.set_destination_transfer(&mut dma, &dst);
    ch.set_minor_loop_elements(&mut dma, ElementSize::Four, 1);
    ch.set_transfer_iterations(&mut dma, 8);
    ch.enable(&mut dma);
    assert_eq!(engine::run_transfer(&mut dma, &mut mem, &ch), Ok(true));
    // Eight elements read from a four-element ring: the second half
    // repeats the first.
    for k in 0..8u32 {
        for b in 0..4u32 {
            assert_eq!(
                mem.read_byte(0x300 + 4 * k + b),
                mem.read_byte(0x200 + 4 * (k % 4) + b)
            );
        }
    }
}

#[test]
fn source_overrun_raises_a_source_bus_error() {
    let mut dma = Dma::new(4);
    let mut mem = Memory::new(64);
    let ch = dma.channel(3).unwrap();
    ch.reset(&mut dma);
    let src = Transfer::buffer_linear(60, 4, ElementSize::Four);
    let dst = Transfer::hardware(0, ElementSize::Four);
    ch.set_source_transfer(&mut dma, &src);
    ch.set_destination_transfer(&mut dma, &dst);
    ch.set_minor_loop_elements(&mut dma, ElementSize::Four, 1);
    ch.set_transfer_iterations(&mut dma, 4);
    ch.enable(&mut dma);
    let e = engine::run_transfer(&mut dma, &mut mem, &ch).expect_err("read leaves the space");
    assert!(e.source_bus_error());
    assert!(e.is_valid());
    assert_eq!(e.error_channel(), 3);
    assert!(ch.is_error(&dma));
    assert_eq!(ch.error_status(&dma).raw(), e.raw());
    ch.clear_error(&mut dma);
    assert!(!ch.is_error(&dma));
}

#[test]
fn ragged_minor_loop_raises_a_configuration_error() {
    let mut dma = Dma::new(4);
    let mut mem = Memory::new(256);
    let ch = dma.channel(0).unwrap();
    ch.reset(&mut dma);
    let src = Transfer::buffer_linear(0, 8, ElementSize::Four);
    let dst = Transfer::buffer_linear(64, 8, ElementSize::Four);
    ch.set_source_transfer(&mut dma, &src);
    ch.set_destination_transfer(&mut dma, &dst);
    // Three bytes per service request cannot carry whole 4-byte elements.
    ch.set_minor_loop_bytes(&mut dma, 3);
    ch.set_transfer_iterations(&mut dma, 8);
    ch.enable(&mut dma);
    let e = engine::run_transfer(&mut dma, &mut mem, &ch).expect_err("ragged minor loop");
    assert!(e.nbytes_citer_error());
    assert!(ch.is_error(&dma));
}

#[test]
fn idle_channel_is_not_serviced() {
    let mut dma = Dma::new(4);
    let mut mem = Memory::new(64);
    let ch = dma.channel(0).unwrap();
    ch.reset(&mut dma);
    assert_eq!(engine::run_transfer(&mut dma, &mut mem, &ch), Ok(false));
    assert!(!ch.is_complete(&dma));
}

#[test]
fn software_start_services_once_and_clears_the_flag() {
    let mut dma = Dma::new(4);
    let mut mem = Memory::new(256);
    for i in 0..4u32 {
        mem.write_byte(i, 0x5Au8.wrapping_add(i as u8));
    }
    let ch = program_linear(&mut dma, 2, 0x0, 0x80, 4, ElementSize::One);
    // No request-enable: a software start alone triggers the service.
    ch.start(&mut dma);
    assert_eq!(engine::run_transfer(&mut dma, &mut mem, &ch), Ok(true));
    assert!(ch.is_complete(&dma));
    for i in 0..4u32 {
        assert_eq!(mem.read_byte(0x80 + i), mem.read_byte(i));
    }
    // The hardware consumed the start flag: nothing else is pending.
    assert_eq!(engine::run_transfer(&mut dma, &mut mem, &ch), Ok(false));
}

#[test]
fn completion_cell_resumes_the_consumer_exactly_once() {
    let mut dma = Dma::new(4);
    let mut mem = Memory::new(256);
    for i in 0..4u32 {
        mem.write_byte(i, 0x21u8.wrapping_add(i as u8));
    }
    let ch = program_linear(&mut dma, 1, 0x0, 0x40, 4, ElementSize::One);
    ch.set_interrupt_on_completion(&mut dma, true);
    // The consumer registers interest and suspends.
    assert!(!interrupt::poll_complete(&mut dma, &ch, 77));
    ch.enable(&mut dma);
    assert_eq!(engine::run_transfer(&mut dma, &mut mem, &ch), Ok(true));
    assert!(ch.is_interrupt(&dma));
    // One completion: exactly one resumption, on the interrupt path.
    assert_eq!(interrupt::on_interrupt(&mut dma, &ch), Some(77));
    assert_eq!(interrupt::on_interrupt(&mut dma, &ch), None);
    assert!(!ch.is_interrupt(&dma));
    // The resumed consumer now observes its completion.
    assert!(interrupt::poll_complete(&mut dma, &ch, 77));
}

#[test]
fn deregistered_consumer_is_not_resumed() {
    let mut dma = Dma::new(4);
    let mut mem = Memory::new(128);
    let ch = program_linear(&mut dma, 0, 0x0, 0x20, 4, ElementSize::One);
    ch.set_interrupt_on_completion(&mut dma, true);
    dma.register_waiter(0, 5);
    // The consumer abandons its wait before the transfer runs.
    assert_eq!(dma.deregister_waiter(0), Some(5));
    ch.enable(&mut dma);
    assert_eq!(engine::run_transfer(&mut dma, &mut mem, &ch), Ok(true));
    assert!(ch.is_interrupt(&dma));
    // The interrupt is serviced, but no stale consumer is resumed.
    assert_eq!(interrupt::on_interrupt(&mut dma, &ch), None);
    assert!(!ch.is_interrupt(&dma));
}

#[test]
fn hardware_request_status_spans_both_halves() {
    let mut dma4 = Dma::new_edma4(64);
    let low = dma4.channel(8).unwrap();
    let high = dma4.channel(40).unwrap();
    assert!(!low.is_hardware_signaling(&dma4));
    assert!(!high.is_hardware_signaling(&dma4));
    engine::set_hardware_request(&mut dma4, &high, true);
    assert!(high.is_hardware_signaling(&dma4));
    assert!(!low.is_hardware_signaling(&dma4));
    engine::set_hardware_request(&mut dma4, &low, true);
    engine::set_hardware_request(&mut dma4, &high, false);
    assert!(low.is_hardware_signaling(&dma4));
    assert!(!high.is_hardware_signaling(&dma4));
}

#[test]
fn forced_bus_error_fails_the_orchestrated_transmit() {
    let mut dma = Dma::new(4);
    let ch = dma.channel(2).unwrap();
    ch.reset(&mut dma);
    engine::raise_error(&mut dma, &ch, error::ES_DBE);
    assert!(ch.is_error(&dma));
    let mut p = PeripheralModel::new(0x800, 7, ElementSize::Four);
    let e = peripheral::transmit(&ch, &mut dma, 0x100, 8, &mut p)
        .expect_err("the observed error fails the schedule");
    assert!(e.destination_bus_error());
    assert!(e.is_valid());
    assert_eq!(e.error_channel(), 2);
    assert!(!ch.is_error(&dma));
    assert!(!ch.is_enabled(&dma));
}

#[test]
fn orchestrated_transmit_schedules_and_runs() {
    let mut dma = Dma::new(4);
    let mut mem = Memory::new(4096);
    for i in 0..32u32 {
        mem.write_byte(0x100 + i, 0x30u8.wrapping_add(i as u8));
    }
    let ch = dma.channel(1).unwrap();
    ch.reset(&mut dma);
    let mut p = PeripheralModel::new(0x800, 7, ElementSize::Four);
    assert_eq!(peripheral::transmit(&ch, &mut dma, 0x100, 8, &mut p), Ok(()));
    assert!(p.request_enabled);
    assert!(ch.is_enabled(&dma));
    assert!(!ch.is_complete(&dma));
    assert_eq!(engine::run_transfer(&mut dma, &mut mem, &ch), Ok(true));
    assert!(ch.is_complete(&dma));
    assert!(!ch.is_error(&dma));
    for b in 0..4u32 {
        assert_eq!(mem.read_byte(0x800 + b), mem.read_byte(0x100 + 28 + b));
    }
}

#[test]
fn orchestrated_receive_schedules_and_runs() {
    let mut dma = Dma::new(4);
    let mut mem = Memory::new(4096);
    for b in 0..4u32 {
        mem.write_byte(0x80 + b, 0xE0u8.wrapping_add(b as u8));
    }
    let ch = dma.channel(0).unwrap();
    ch.reset(&mut dma);
    let mut p = PeripheralModel::new(0x80, 3, ElementSize::Four);
    assert_eq!(peripheral::receive(&ch, &mut dma, 0x40, 4, &mut p), Ok(()));
    assert!(p.request_enabled);
    assert_eq!(engine::run_transfer(&mut dma, &mut mem, &ch), Ok(true));
    // Every received element is the register's current content.
    for k in 0..4u32 {
        for b in 0..4u32 {
            assert_eq!(mem.read_byte(0x40 + 4 * k + b), mem.read_byte(0x80 + b));
        }
    }
}

#[test]
fn completion_runs_on_every_generation() {
    let mut edma = Dma::new(8);
    let mut edma3 = Dma::new_edma3(8);
    let mut edma4 = Dma::new_edma4(40);
    for (dma, index) in [(&mut edma, 0usize), (&mut edma3, 5), (&mut edma4, 36)] {
        let mut mem = Memory::new(256);
        for i in 0..8u32 {
            mem.write_byte(i, 0x44u8.wrapping_add(i as u8));
        }
        let ch = program_linear(dma, index, 0x0, 0x20, 8, ElementSize::Two);
        ch.enable(dma);
        assert!(ch.is_enabled(dma));
        assert_eq!(engine::run_transfer(dma, &mut mem, &ch), Ok(true));
        assert!(ch.is_complete(dma));
        assert!(!ch.is_error(dma));
        for i in 0..8u32 {
            assert_eq!(mem.read_byte(0x20 + i), mem.read_byte(i));
        }
        ch.clear_complete(dma);
        assert!(!ch.is_complete(dma));
        ch.disable(dma);
        assert!(!ch.is_enabled(dma));
    }
}

#[test]
fn disable_on_completion_drops_the_request_enable() {
    let mut dma = Dma::new(4);
    let mut mem = Memory::new(128);
    let ch = program_linear(&mut dma, 0, 0x0, 0x20, 4, ElementSize::One);
    ch.set_disable_on_completion(&mut dma, true);
    ch.enable(&mut dma);
    assert_eq!(engine::run_transfer(&mut dma, &mut mem, &ch), Ok(true));
    assert!(ch.is_complete(&dma));
    assert!(!ch.is_enabled(&dma));
    assert_eq!(engine::run_transfer(&mut dma, &mut mem, &ch), Ok(false));
}

#[test]
fn memcpy_schedules_a_software_started_copy() {
    let mut dma = Dma::new(4);
    let mut mem = Memory::new(1024);
    for i in 0..48u32 {
        mem.write_byte(0x10 + i, 0x70u8.wrapping_add(i as u8));
    }
    let ch = dma.channel(0).unwrap();
    ch.reset(&mut dma);
    assert_eq!(
        imxrt_dma::memcpy::memcpy(&ch, &mut dma, 0x10, 0x210, 12, ElementSize::Four),
        Ok(())
    );
    // Scheduled by software start alone: the request-enable bit is untouched.
    assert!(!ch.is_enabled(&dma));
    assert_eq!(engine::run_transfer(&mut dma, &mut mem, &ch), Ok(true));
    assert!(ch.is_complete(&dma));
    for i in 0..48u32 {
        assert_eq!(mem.read_byte(0x210 + i), mem.read_byte(0x10 + i));
    }
}

#[test]
fn memcpy_reports_a_pending_error() {
    let mut dma = Dma::new(4);
    let ch = dma.channel(1).unwrap();
    ch.reset(&mut dma);
    engine::raise_error(&mut dma, &ch, error::ES_SBE);
    let e = imxrt_dma::memcpy::memcpy(&ch, &mut dma, 0x10, 0x210, 4, ElementSize::One)
        .expect_err("the observed error fails the schedule");
    assert!(e.source_bus_error());
    assert!(!ch.is_error(&dma));
}

#[test]
fn destination_overrun_raises_a_destination_bus_error() {
    let mut dma = Dma::new(4);
    let mut mem = Memory::new(64);
    let ch = dma.channel(0).unwrap();
    ch.reset(&mut dma);
    let src = Transfer::hardware(0, ElementSize::Four);
    let dst = Transfer::buffer_linear(56, 4, ElementSize::Four);
    ch.set_source_transfer(&mut dma, &src);
    ch.set_destination_transfer(&mut dma, &dst);
    ch.set_minor_loop_elements(&mut dma, ElementSize::Four, 1);
    ch.set_transfer_iterations(&mut dma, 4);
    ch.enable(&mut dma);
    let e = engine::run_transfer(&mut dma, &mut mem, &ch).expect_err("write leaves the space");
    assert!(e.destination_bus_error());
    assert!(!e.source_bus_error());
    assert!(ch.is_error(&dma));
}

#[test]
fn later_generations_route_requests_per_channel() {
    let mut dma3 = Dma::new_edma3(8);
    let mut mem = Memory::new(512);
    for i in 0..8u32 {
        mem.write_byte(0x20 + i, 0x90u8.wrapping_add(i as u8));
    }
    let ch = dma3.channel(2).unwrap();
    ch.reset(&mut dma3);
    assert!(!ch.is_hardware_signaling(&dma3));
    engine::set_hardware_request(&mut dma3, &ch, true);
    assert!(ch.is_hardware_signaling(&dma3));
    let mut p = PeripheralModel::new(0x100, 4, ElementSize::Two);
    assert_eq!(peripheral::transmit(&ch, &mut dma3, 0x20, 4, &mut p), Ok(()));
    assert!(ch.is_enabled(&dma3));
    assert_eq!(engine::run_transfer(&mut dma3, &mut mem, &ch), Ok(true));
    assert!(ch.is_complete(&dma3));
    for b in 0..2u32 {
        assert_eq!(mem.read_byte(0x100 + b), mem.read_byte(0x20 + 6 + b));
    }
}

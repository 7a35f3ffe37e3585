//! Descriptor construction, configuration encoding, and decoding.

use imxrt_dma::channel::ConfigurationError;
use imxrt_dma::error;
use imxrt_dma::ral::edma::ChannelPriorityRegisters;
use imxrt_dma::BandwidthControl;
use imxrt_dma::ChannelConfiguration;
use imxrt_dma::Dma;
use imxrt_dma::ElementSize;
use imxrt_dma::Error;
use imxrt_dma::Transfer;

#[test]
fn circular_construction_succeeds_for_powers_of_two() {
    for element in [
        ElementSize::One,
        ElementSize::Two,
        ElementSize::Four,
        ElementSize::Eight,
    ] {
        for capacity in [1usize, 2, 4, 8, 32, 128, 1024] {
            assert!(Transfer::buffer_circular(0x1000, capacity, element).is_some());
        }
    }
}

#[test]
fn circular_construction_fails_off_powers_of_two() {
    for element in [
        ElementSize::One,
        ElementSize::Two,
        ElementSize::Four,
        ElementSize::Eight,
    ] {
        for capacity in [0usize, 3, 5, 6, 7, 12, 100, 1023] {
            assert!(Transfer::buffer_circular(0x1000, capacity, element).is_none());
        }
    }
}

#[test]
fn element_sizes_and_codes() {
    assert_eq!(ElementSize::One.size_bytes(), 1);
    assert_eq!(ElementSize::Two.size_bytes(), 2);
    assert_eq!(ElementSize::Four.size_bytes(), 4);
    assert_eq!(ElementSize::Eight.size_bytes(), 8);
    assert_eq!(ElementSize::One.data_transfer_id(), 0);
    assert_eq!(ElementSize::Two.data_transfer_id(), 1);
    assert_eq!(ElementSize::Four.data_transfer_id(), 2);
    assert_eq!(ElementSize::Eight.data_transfer_id(), 3);
}

#[test]
fn bandwidth_control_raw_values() {
    assert_eq!(BandwidthControl::raw(None), 0);
    assert_eq!(BandwidthControl::raw(Some(BandwidthControl::Stall4Cycles)), 2);
    assert_eq!(BandwidthControl::raw(Some(BandwidthControl::Stall8Cycles)), 3);
}

#[test]
fn error_snapshot_decodes_every_documented_bit() {
    let e = Error::new(0x8000_0000 | (11 << 8) | error::ES_SBE);
    assert!(e.is_valid());
    assert_eq!(e.error_channel(), 11);
    assert!(e.source_bus_error());
    assert!(!e.destination_bus_error());
    assert!(!e.transfer_canceled());
    assert_eq!(e.raw(), 0x8000_0B02);

    let e = Error::new(
        error::ES_DBE
            | error::ES_SGE
            | error::ES_NCE
            | error::ES_DOE
            | error::ES_DAE
            | error::ES_SOE
            | error::ES_SAE
            | error::ES_CPE
            | error::ES_GPE
            | error::ES_ECX,
    );
    assert!(e.destination_bus_error());
    assert!(e.scatter_gather_error());
    assert!(e.nbytes_citer_error());
    assert!(e.destination_offset_error());
    assert!(e.destination_address_error());
    assert!(e.source_offset_error());
    assert!(e.source_address_error());
    assert!(e.channel_priority_error());
    assert!(e.group_priority_error());
    assert!(e.transfer_canceled());
    assert!(!e.is_valid());
    assert!(!e.source_bus_error());
    assert_eq!(e.error_channel(), 0);
}

#[test]
fn channel_allocation_is_once_per_index() {
    let mut dma = Dma::new(8);
    let ch = dma.channel(3).expect("first allocation");
    assert_eq!(ch.channel(), 3);
    assert!(dma.channel(3).is_none());
    assert!(dma.channel(8).is_none());
    let other = dma.channel(7).expect("distinct index still free");
    assert_eq!(other.channel(), 7);
}

#[test]
fn periodic_triggering_rejected_above_the_low_four_channels() {
    let mut dma = Dma::new(32);
    for index in 0..32usize {
        let ch = dma.channel(index).unwrap();
        let r = ch.set_channel_configuration(
            &mut dma,
            ChannelConfiguration::Enable { source: 5, periodic: true },
        );
        if index < 4 {
            assert_eq!(r, Ok(()));
        } else {
            assert_eq!(r, Err(ConfigurationError::PeriodicTrigger));
        }
    }
}

#[test]
fn periodic_triggering_rejected_without_a_multiplexer_block() {
    let mut dma3 = Dma::new_edma3(4);
    let ch = dma3.channel(0).unwrap();
    assert_eq!(
        ch.set_channel_configuration(
            &mut dma3,
            ChannelConfiguration::Enable { source: 5, periodic: true },
        ),
        Err(ConfigurationError::PeriodicTrigger)
    );
    assert_eq!(
        ch.set_channel_configuration(&mut dma3, ChannelConfiguration::AlwaysOn),
        Err(ConfigurationError::AlwaysOn)
    );
    assert_eq!(
        ch.set_channel_configuration(&mut dma3, ChannelConfiguration::enable(5)),
        Ok(())
    );
}

#[test]
fn shorthand_enable_never_asks_for_triggering() {
    assert_eq!(
        ChannelConfiguration::enable(9),
        ChannelConfiguration::Enable { source: 9, periodic: false }
    );
}

#[test]
fn priority_registers_swizzle_within_groups_of_four() {
    let regs = ChannelPriorityRegisters { dchpri: vec![0u8; 32] };
    assert_eq!(regs.index(0), 3);
    assert_eq!(regs.index(1), 2);
    assert_eq!(regs.index(2), 1);
    assert_eq!(regs.index(3), 0);
    assert_eq!(regs.index(4), 7);
    assert_eq!(regs.index(5), 6);
    assert_eq!(regs.index(11), 8);
    assert_eq!(regs.index(31), 28);
    for channel in 0..32usize {
        assert!(regs.index(channel) < 32);
    }
}

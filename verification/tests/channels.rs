use bustop::channels::{
    aggregate_channels, classify, cluster_metrics, measured_cluster_list, ratio_ppm, Booking,
    ChannelTotals, Cluster, PowerDomain,
};
use bustop::sources::ioreport::IOReportSample;

fn sample(group: &str, subgroup: &str, channel: &str, value: i64) -> IOReportSample {
    IOReportSample {
        group: group.to_string(),
        subgroup: subgroup.to_string(),
        channel: channel.to_string(),
        value,
        unit: String::new(),
    }
}

fn residency(channel: &str, value: i64) -> IOReportSample {
    sample("CPU Stats", "CPU Core Performance States", channel, value)
}

fn energy(channel: &str, value: i64) -> IOReportSample {
    sample("Energy Model", "", channel, value)
}

fn booking(s: &IOReportSample) -> (Option<(Cluster, bool)>, Option<PowerDomain>) {
    match classify(s) {
        Booking::Residency { cluster, idle } => (Some((cluster, idle)), None),
        Booking::Energy { domain } => (None, Some(domain)),
        Booking::Ignored => (None, None),
    }
}

#[test]
fn ratio_of_simple_fractions() {
    assert_eq!(ratio_ppm(30, 100), Some(300_000));
    assert_eq!(ratio_ppm(150, 200), Some(750_000));
    assert_eq!(ratio_ppm(1, 2), Some(500_000));
    assert_eq!(ratio_ppm(0, 5), Some(0));
    assert_eq!(ratio_ppm(5, 5), Some(1_000_000));
}

#[test]
fn ratio_rounds_down() {
    assert_eq!(ratio_ppm(1, 3), Some(333_333));
    assert_eq!(ratio_ppm(2, 3), Some(666_666));
    assert_eq!(ratio_ppm(1, 7), Some(142_857));
    assert_eq!(ratio_ppm(1, 1_000_001), Some(0));
    assert_eq!(ratio_ppm(1, 1_000_000), Some(1));
    assert_eq!(ratio_ppm(999_999, 1_000_000), Some(999_999));
    assert_eq!(ratio_ppm(9_999_999, 10_000_000), Some(999_999));
}

#[test]
fn ratio_is_capped_at_the_whole() {
    assert_eq!(ratio_ppm(6, 5), Some(1_000_000));
    assert_eq!(ratio_ppm(u128::MAX, 1), Some(1_000_000));
}

#[test]
fn ratio_of_nothing_is_no_ratio() {
    assert_eq!(ratio_ppm(0, 0), None);
    assert_eq!(ratio_ppm(1, 0), None);
    assert_eq!(ratio_ppm(u128::MAX, 0), None);
}

#[test]
fn ratio_of_counters_near_the_top_of_the_range() {
    assert_eq!(ratio_ppm(u128::MAX, u128::MAX), Some(1_000_000));
    assert_eq!(ratio_ppm(u128::MAX - 1, u128::MAX), Some(999_999));
    assert_eq!(ratio_ppm(u128::MAX / 2, u128::MAX), Some(499_999));
    assert_eq!(ratio_ppm(u128::MAX / 4 + 1, u128::MAX), Some(250_000));
    assert_eq!(ratio_ppm(1u128 << 126, 1u128 << 127), Some(500_000));
    assert_eq!(ratio_ppm(3 * (1u128 << 125), 1u128 << 127), Some(750_000));
    assert_eq!(ratio_ppm(3 * (1u128 << 124), 1u128 << 127), Some(375_000));
}

#[test]
fn residency_channels_are_classified_by_cluster() {
    assert_eq!(booking(&residency("ECPU0", 1)), (Some((Cluster::Efficiency, false)), None));
    assert_eq!(booking(&residency("E-Cluster", 1)), (Some((Cluster::Efficiency, false)), None));
    assert_eq!(booking(&residency("PCPU3", 1)), (Some((Cluster::Performance, false)), None));
    assert_eq!(booking(&residency("P-Cluster", 1)), (Some((Cluster::Performance, false)), None));
    assert_eq!(booking(&residency("ECPU IDLE", 1)), (Some((Cluster::Efficiency, true)), None));
    assert_eq!(booking(&residency("PCPU IDLE", 1)), (Some((Cluster::Performance, true)), None));
    assert_eq!(booking(&residency("GPU", 1)), (None, None));
    assert_eq!(booking(&residency("CPU", 1)), (None, None));
}

#[test]
fn cluster_is_settled_before_idle_state() {
    // The name mentions both tiers and an idle state: the efficiency pattern is
    // tried first, and the idle pattern only once the cluster is settled.
    assert_eq!(booking(&residency("PCPU ECPU IDLE", 1)), (Some((Cluster::Efficiency, true)), None));
    assert_eq!(booking(&residency("P-Cluster E-Cluster", 1)), (Some((Cluster::Efficiency, false)), None));
    // An idle state of no known cluster is not residency at all.
    assert_eq!(booking(&residency("IDLE", 1)), (None, None));
}

#[test]
fn residency_needs_a_performance_state_subgroup() {
    let s = sample("CPU Stats", "CPU Core Utilisation", "ECPU0", 5);
    assert_eq!(booking(&s), (None, None));
    let s = sample("CPU Stats", "", "PCPU0", 5);
    assert_eq!(booking(&s), (None, None));
    let s = sample("CPU Stats", "CPU Complex Performance States", "PCPU0", 5);
    assert_eq!(booking(&s), (Some((Cluster::Performance, false)), None));
}

#[test]
fn energy_channels_are_classified_by_domain() {
    assert_eq!(booking(&energy("CPU Energy", 1)), (None, Some(PowerDomain::Cpu)));
    assert_eq!(booking(&energy("ECPU", 1)), (None, Some(PowerDomain::Cpu)));
    assert_eq!(booking(&energy("GPU Energy", 1)), (None, Some(PowerDomain::Gpu)));
    assert_eq!(booking(&energy("ANE0", 1)), (None, Some(PowerDomain::Ane)));
    assert_eq!(booking(&energy("DRAM0", 1)), (None, Some(PowerDomain::Dram)));
    assert_eq!(booking(&energy("DISP", 1)), (None, None));
    assert_eq!(booking(&energy("", 1)), (None, None));
}

#[test]
fn energy_domains_are_tried_in_order() {
    assert_eq!(booking(&energy("GPU CPU", 1)), (None, Some(PowerDomain::Cpu)));
    assert_eq!(booking(&energy("DRAM ANE GPU", 1)), (None, Some(PowerDomain::Gpu)));
    assert_eq!(booking(&energy("DRAM ANE", 1)), (None, Some(PowerDomain::Ane)));
}

#[test]
fn other_groups_are_ignored() {
    assert_eq!(booking(&sample("GPU Stats", "GPU Performance States", "GPUPH", 9)), (None, None));
    assert_eq!(booking(&sample("", "Performance States", "ECPU", 9)), (None, None));
    assert_eq!(booking(&sample("CPU Stat", "Performance States", "ECPU", 9)), (None, None));
    assert_eq!(booking(&sample("CPU Stats ", "Performance States", "ECPU", 9)), (None, None));
    assert_eq!(booking(&sample("energy model", "", "CPU", 9)), (None, None));
}

#[test]
fn no_readings_add_up_to_nothing() {
    let totals = aggregate_channels(&vec![]);
    assert_eq!(
        totals,
        ChannelTotals {
            efficiency_total: 0,
            efficiency_active: 0,
            performance_total: 0,
            performance_active: 0,
            cpu_microwatts: 0,
            gpu_microwatts: 0,
            ane_microwatts: 0,
            dram_microwatts: 0,
            total_microwatts: 0,
        }
    );
    assert!(measured_cluster_list(&totals).is_empty());
}

#[test]
fn residency_of_two_clusters() {
    let samples = vec![
        residency("ECPU IDLE", 70),
        residency("ECPU V0P0", 20),
        residency("ECPU V1P0", 10),
        residency("PCPU IDLE", 50),
        residency("PCPU V0P0", 100),
        residency("PCPU V3P0", 50),
    ];
    let totals = aggregate_channels(&samples);
    assert_eq!(totals.efficiency_total, 100);
    assert_eq!(totals.efficiency_active, 30);
    assert_eq!(totals.performance_total, 200);
    assert_eq!(totals.performance_active, 150);

    let clusters = measured_cluster_list(&totals);
    assert_eq!(clusters.len(), 2);
    assert_eq!(clusters[0].name, "E-Cluster");
    assert_eq!(clusters[0].active_ppm, 300_000);
    assert_eq!(clusters[0].idle_ppm, 700_000);
    assert_eq!(clusters[1].name, "P-Cluster");
    assert_eq!(clusters[1].active_ppm, 750_000);
    assert_eq!(clusters[1].idle_ppm, 250_000);
    for c in &clusters {
        assert_eq!(c.freq_mhz, 0);
        assert_eq!(c.freq_max_mhz, 0);
        assert_eq!(c.power_microwatts, 0);
        assert_eq!(c.active_ppm + c.idle_ppm, 1_000_000);
    }
}

#[test]
fn cluster_without_residency_is_left_out() {
    let totals = aggregate_channels(&vec![residency("PCPU V0P0", 4), residency("PCPU IDLE", 12)]);
    let clusters = measured_cluster_list(&totals);
    assert_eq!(clusters.len(), 1);
    assert_eq!(clusters[0].name, "P-Cluster");
    assert_eq!(clusters[0].active_ppm, 250_000);
    assert_eq!(clusters[0].idle_ppm, 750_000);

    let totals = aggregate_channels(&vec![residency("ECPU IDLE", 9)]);
    let clusters = measured_cluster_list(&totals);
    assert_eq!(clusters.len(), 1);
    assert_eq!(clusters[0].name, "E-Cluster");
    assert_eq!(clusters[0].active_ppm, 0);
    assert_eq!(clusters[0].idle_ppm, 1_000_000);

    // Readings of zero are no residency: the cluster is left out, not shown as idle.
    let totals = aggregate_channels(&vec![residency("ECPU IDLE", 0), residency("ECPU V0", 0)]);
    assert!(measured_cluster_list(&totals).is_empty());
}

#[test]
fn negative_residency_counts_as_nothing() {
    let totals = aggregate_channels(&vec![
        residency("ECPU V0", -5),
        residency("ECPU V1", 5),
        residency("ECPU IDLE", i64::MIN),
        residency("ECPU IDLE", 15),
    ]);
    assert_eq!(totals.efficiency_total, 20);
    assert_eq!(totals.efficiency_active, 5);
    assert_eq!(totals.performance_total, 0);
}

#[test]
fn residency_sums_do_not_overflow() {
    let samples = vec![
        residency("PCPU V0", i64::MAX),
        residency("PCPU V1", i64::MAX),
        residency("PCPU V2", i64::MAX),
        residency("PCPU IDLE", i64::MAX),
    ];
    let totals = aggregate_channels(&samples);
    assert_eq!(totals.performance_total, 4 * (i64::MAX as u128));
    assert_eq!(totals.performance_active, 3 * (i64::MAX as u128));
    let clusters = measured_cluster_list(&totals);
    assert_eq!(clusters[0].active_ppm, 750_000);
    assert_eq!(clusters[0].idle_ppm, 250_000);
}

#[test]
fn energy_is_summed_per_domain() {
    let samples = vec![
        energy("ECPU", 1_500_000),
        energy("PCPU", 2_500_000),
        energy("GPU", 3_000_000),
        energy("GPU SRAM", 250_000),
        energy("ANE", 125_000),
        energy("DRAM", 600_000),
        energy("DRAM1", 400_000),
        energy("DISP", 9_999_999),
    ];
    let totals = aggregate_channels(&samples);
    assert_eq!(totals.cpu_microwatts, 4_000_000);
    assert_eq!(totals.gpu_microwatts, 3_250_000);
    assert_eq!(totals.ane_microwatts, 125_000);
    assert_eq!(totals.dram_microwatts, 1_000_000);
    assert_eq!(totals.total_microwatts, 8_375_000);
    assert_eq!(totals.efficiency_total, 0);
    assert_eq!(totals.performance_total, 0);
}

#[test]
fn unknown_readings_change_nothing_wherever_they_stand() {
    let known = vec![
        residency("ECPU IDLE", 70),
        residency("ECPU V0P0", 30),
        energy("GPU", 5),
        energy("DRAM", 7),
    ];
    let expected = aggregate_channels(&known);
    let unknown = [
        energy("DISP", 1_000),
        residency("GPUPH", 2_000),
        sample("GPU Stats", "GPU Performance States", "GPU", 3_000),
        sample("CPU Stats", "Utilisation", "ECPU", 4_000),
    ];
    for at in 0..=known.len() {
        for extra in &unknown {
            let mut mixed = known.clone();
            mixed.insert(at, extra.clone());
            assert_eq!(aggregate_channels(&mixed), expected);
        }
    }
}

#[test]
fn two_readings_of_one_domain_are_added() {
    let totals = aggregate_channels(&vec![energy("GPU", 1_000_000), energy("GPU SRAM", 2_000_000)]);
    assert_eq!(totals.gpu_microwatts, 3_000_000);
    assert_eq!(totals.total_microwatts, 3_000_000);
    assert_eq!(totals.cpu_microwatts, 0);
    assert_eq!(totals.ane_microwatts, 0);
    assert_eq!(totals.dram_microwatts, 0);
}

#[test]
fn energy_readings_keep_their_sign() {
    let totals = aggregate_channels(&vec![
        energy("CPU", -10),
        energy("CPU", 4),
        energy("GPU", i64::MIN),
        energy("GPU", i64::MIN),
        energy("DRAM", i64::MAX),
    ]);
    assert_eq!(totals.cpu_microwatts, -6);
    assert_eq!(totals.gpu_microwatts, 2 * (i64::MIN as i128));
    assert_eq!(totals.dram_microwatts, i64::MAX as i128);
    assert_eq!(
        totals.total_microwatts,
        totals.cpu_microwatts + totals.gpu_microwatts + totals.ane_microwatts + totals.dram_microwatts
    );
    assert_eq!(totals.total_microwatts, -6 + 2 * (i64::MIN as i128) + i64::MAX as i128);
}

#[test]
fn groups_do_not_mix() {
    // A residency channel of the energy group is energy, and the other way round.
    let totals = aggregate_channels(&vec![
        sample("Energy Model", "CPU Core Performance States", "ECPU IDLE", 7),
        sample("CPU Stats", "CPU Core Performance States", "ECPU", 3),
        sample("GPU Stats", "GPU Performance States", "GPU", 1000),
    ]);
    assert_eq!(totals.cpu_microwatts, 7);
    assert_eq!(totals.efficiency_total, 3);
    assert_eq!(totals.efficiency_active, 3);
    assert_eq!(totals.gpu_microwatts, 0);
}

#[test]
fn cluster_entry_holds_both_shares() {
    let c = cluster_metrics(Cluster::Efficiency, 123_456);
    assert_eq!(c.name, "E-Cluster");
    assert_eq!(c.active_ppm, 123_456);
    assert_eq!(c.idle_ppm, 876_544);
    let c = cluster_metrics(Cluster::Performance, 1_000_000);
    assert_eq!(c.name, "P-Cluster");
    assert_eq!(c.active_ppm, 1_000_000);
    assert_eq!(c.idle_ppm, 0);
    let c = cluster_metrics(Cluster::Performance, 1_000_001);
    assert_eq!(c.active_ppm, 1_000_000);
    assert_eq!(c.idle_ppm, 0);
    let c = cluster_metrics(Cluster::Efficiency, u32::MAX);
    assert_eq!(c.active_ppm, 1_000_000);
    assert_eq!(c.idle_ppm, 0);
    assert_eq!(Cluster::Efficiency.name(), "E-Cluster");
    assert_eq!(Cluster::Performance.name(), "P-Cluster");
}

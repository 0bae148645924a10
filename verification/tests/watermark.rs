use thide::watermark::{
    decode_cached_rva, encode_rva, explorer_pid_from, format_pdb_guid, is_explorer_process,
    patch_failure_message, patch_target_address, refresh_action, ret_instruction,
    rva_cache_file_name, watermark_error_message, ExplorerMonitor, PatchArch, PatchGate,
    RefreshAction,
};

#[test]
fn pdb_guid_matches_std_formatting() {
    let sig: u128 = 0x1234_5678_9ABC_DEF0_0FED_CBA9_8765_4321;
    for age in [0u32, 1, 0xA, 0x2B, 0xFFFF_FFFF] {
        assert_eq!(format_pdb_guid(sig, age), format!("{sig:032X}{age:X}"));
    }
    assert_eq!(format_pdb_guid(0, 0), "000000000000000000000000000000000");
    assert_eq!(format_pdb_guid(u128::MAX, 1), format!("{}1", "F".repeat(32)));
    assert_eq!(format_pdb_guid(0x1A, 0x2B), format!("{}1A2B", "0".repeat(30)));
}

#[test]
fn rva_cache_round_trip() {
    assert_eq!(rva_cache_file_name("ABC1"), "ABC1.rva");
    assert_eq!(encode_rva(0x0102_0304), vec![1, 2, 3, 4]);
    assert_eq!(decode_cached_rva(&[1, 2, 3, 4]), 0x0102_0304);
    for rva in [0u32, 1, 0x00AB_CDEF, u32::MAX] {
        assert_eq!(decode_cached_rva(&encode_rva(rva)), rva);
        assert_eq!(encode_rva(rva), rva.to_be_bytes().to_vec());
    }
    assert_eq!(decode_cached_rva(&[0xFF, 0, 0, 0x01]), 0xFF00_0001);
}

#[test]
fn patch_target_and_bytes() {
    assert_eq!(patch_target_address(0x7FF0_0000_0000, 0x1234), Some(0x7FF0_0000_1234));
    assert_eq!(patch_target_address(u64::MAX, 1), None);
    assert_eq!(patch_target_address(u64::MAX - 1, 1), Some(u64::MAX));
    assert_eq!(ret_instruction(PatchArch::X86_64), vec![0xC3]);
    assert_eq!(ret_instruction(PatchArch::Aarch64), vec![0xC0, 0x03, 0x1F, 0xD6]);
}

#[test]
fn refresh_depends_on_desktop_visibility() {
    assert_eq!(refresh_action(0x1000_0000), RefreshAction::NotifyAssociationsChanged);
    assert_eq!(refresh_action(0x5600_0000), RefreshAction::NotifyAssociationsChanged);
    assert_eq!(refresh_action(0x4600_0000), RefreshAction::ToggleDesktopIcons);
    assert_eq!(refresh_action(0), RefreshAction::ToggleDesktopIcons);
}

#[test]
fn failure_messages() {
    assert_eq!(patch_failure_message(Some("no symbols".to_string())), "no symbols");
    assert_eq!(patch_failure_message(None), "UWD2 terminó con un error no especificado");
    assert_eq!(
        watermark_error_message("x"),
        "No se pudo volver a aplicar el parche Insider.\n\nx"
    );
}

#[test]
fn explorer_restarts_trigger_patches() {
    let mut m = ExplorerMonitor::new(Some(100));
    assert!(!m.observe(Some(100)));
    assert!(!m.observe(None));
    assert!(m.observe(Some(100)));
    assert!(m.observe(Some(200)));
    assert!(!m.observe(Some(200)));
    assert_eq!(explorer_pid_from(0), None);
    assert_eq!(explorer_pid_from(42), Some(42));
    assert!(is_explorer_process("Explorer.EXE"));
    assert!(!is_explorer_process("explorer.exe.bak"));
}

#[test]
fn one_patch_at_a_time() {
    let mut g = PatchGate::new();
    assert!(g.try_begin());
    assert!(!g.try_begin());
    g.finish();
    assert!(g.try_begin());
}

#[test]
fn explorer_readings_over_a_run() {
    let mut m = ExplorerMonitor::new(None);
    let readings = [None, Some(7), Some(7), None, Some(7), Some(8)];
    let patches: Vec<bool> = readings.iter().map(|&p| m.observe(p)).collect();
    assert_eq!(patches, vec![false, true, false, false, true, true]);
}

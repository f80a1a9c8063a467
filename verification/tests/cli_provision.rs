#![allow(unused_imports)]
use can_flasher::cli::provision::{resolve_role_or_path, roles, RoleSource};

fn id_of(raw: &str) -> Option<u8> {
    resolve_role_or_path(raw).map(|(id, _)| id)
}

#[test]
fn resolves_ecu_ams_udv() {
        assert_eq!(id_of("ecu"), Some(0x01));
        assert_eq!(id_of("ams"), Some(0x02));
        assert_eq!(id_of("udv"), Some(0x03));
    }

#[test]
fn role_lookup_is_case_insensitive() {
        // Operators paste from team docs / GitHub issues where role
        // names land in all sorts of casing. Accept anything that
        // matches ASCII-insensitive.
        assert_eq!(id_of("AMS"), Some(0x02));
        assert_eq!(id_of("uDV"), Some(0x03));
        assert_eq!(id_of("Ecu"), Some(0x01));
    }

#[test]
fn whitespace_is_trimmed() {
        assert_eq!(id_of("  ams  "), Some(0x02));
    }

#[test]
fn unknown_roles_return_none() {
        // Typos and not-yet-added boards land here. The caller
        // surfaces the expected-roles list in the error message.
        assert_eq!(id_of("master"), None);
        assert_eq!(id_of("ecu-1"), None);
        assert_eq!(id_of(""), None);
    }

#[test]
fn role_ids_are_unique() {
        // Defence against future entries colliding on the same
        // node-id — would silently confuse the bus.
        let table = roles();
        for (i, (_, a)) in table.iter().enumerate() {
            for (_, b) in &table[i + 1..] {
                assert_ne!(a, b, "node-id 0x{a:02X} mapped to two roles");
            }
        }
    }

#[test]
fn role_ids_fit_in_4_bits() {
        // The BL node-id field is 4 bits (0x0..0xF). 0xF is
        // reserved for broadcast — don't accidentally provision a
        // board to the broadcast slot.
        for (name, id) in &roles() {
            assert!(
                *id < 0xF,
                "role {name:?} = 0x{id:02X} would collide with broadcast 0xF"
            );
        }
    }

#[test]
fn bare_filename_with_role_extension_resolves() {
        // The motivating case: team builds produce `ams.elf` /
        // `ecu.elf` / `uDV.elf` next to each project. Operator
        // can paste the filename verbatim.
        assert_eq!(id_of("ams.elf"), Some(0x02));
        assert_eq!(id_of("ecu.hex"), Some(0x01));
        assert_eq!(id_of("uDV.bin"), Some(0x03));
    }

#[test]
fn path_with_role_extension_resolves() {
        // Real-world paste from a build dir.
        assert_eq!(id_of("build/ams.elf"), Some(0x02));
        assert_eq!(id_of("./build/ecu.hex"), Some(0x01));
        assert_eq!(id_of("../firmware/Debug/uDV.bin"), Some(0x03));
        // Windows-style separator too — operators on Windows
        // copy paths from Explorer.
        assert_eq!(id_of("build\\AMS.ELF"), Some(0x02));
    }

#[test]
fn path_inference_is_case_insensitive_on_both_stem_and_extension() {
        assert_eq!(id_of("build/AMS.ELF"), Some(0x02));
        assert_eq!(id_of("build/Ecu.Hex"), Some(0x01));
    }

#[test]
fn explicit_vs_inferred_source_is_tracked() {
        // The CLI uses the RoleSource variant to print "from
        // <path>" so the operator sees what the host inferred.
        let (_, src) = resolve_role_or_path("ams").unwrap();
        assert!(matches!(src, RoleSource::Explicit));

        let (_, src) = resolve_role_or_path("build/ams.elf").unwrap();
        assert!(matches!(src, RoleSource::FromPath("ams")));
    }

#[test]
fn unknown_filename_stems_return_none() {
        // A path that doesn't match a known role — fail loudly so
        // the operator sees what they typed, not a default.
        assert_eq!(id_of("build/master.elf"), None);
        assert_eq!(id_of("./output/firmware.bin"), None);
    }

#[test]
fn non_firmware_extensions_dont_strip() {
        // `ams.txt` should NOT resolve via filename inference —
        // we only treat .elf / .hex / .bin as firmware-shaped.
        // The bare string after the dot ("txt") isn't a role
        // either, so the whole thing is unresolvable.
        assert_eq!(id_of("ams.txt"), None);
        assert_eq!(id_of("ams.fw"), None);
    }

#[test]
fn path_segments_dont_leak_through() {
        // `firmware/ams/main.elf` should infer from `main`, not
        // `ams`. `main` isn't a role → None. Prevents a parent
        // directory name from silently picking the wrong role.
        assert_eq!(id_of("firmware/ams/main.elf"), None);
    }

#[test]
fn hidden_dotfile_with_no_stem_returns_none() {
        // Just `.elf` with no body — pathological case, no
        // basename stem to match against.
        assert_eq!(id_of(".elf"), None);
    }

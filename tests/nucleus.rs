use tokamak::action::{claim, compress, rebind};
use tokamak::board::{Board, Curve, Element, Tombstone};
use tokamak::consts::{
    COORD_01_H, COORD_02_HE, COORD_03_LI, COORD_04_BE, COORD_05_B, COORD_06_C, COORD_07_N,
    COORD_08_O, COORD_09_F, COORD_10_NE, COORD_11_NA, COORD_12_MG, COORD_13_AL, COORD_14_SI,
    COORD_15_P, COORD_16_S, COORD_17_CL, COORD_18_AR, COORD_19_K, COORD_20_CA, COORD_21_SC,
    COORD_22_TI, COORD_23_V, COORD_24_CR, COORD_25_MN, COORD_26_FE, MAX_ATOMIC_NUMBER,
    MAX_DELTA_TIMESTAMP, MAX_SATURATION, MAX_SPEED_MULTIPLIER, MIN_FEE, SUM_ATOMIC_NUMBERS,
};
use tokamak::fees::{compression_fee, ejection_fee, injection_fee, rebind_fee, speed_bonus};
use tokamak::movement::{fission, fuse, shift};
use tokamak::player::{Charge, Wallet};
use tokamak::rounding::round_divide;
use tokamak::table::CurveTable;
use tokamak::types::{AddressBytes, Coordinates, ElementIndex, Gluon, Q824};

// Helpers
fn dummy_address() -> AddressBytes {
    [0u8; 32]
}

fn table() -> CurveTable {
    CurveTable::standard().expect("the baked table is valid")
}

fn make_element(atomic: u64, gen: u64, capacity: Gluon, pot: Gluon) -> Element {
    let index = ElementIndex((atomic << 56) | (gen & ((1u64 << 56) - 1)));
    let curve = Curve { capacity, state: 0, volume: 0, position: 0, shares: 0 };
    Element { index, pot, coordinates: Coordinates(1u64), curve }
}

fn make_charge(balance: Gluon, index: ElementIndex, share: Q824) -> Charge {
    Charge { balance, timestamp: 0, index, share, authority: dummy_address() }
}

fn all_elements() -> [Coordinates; 26] {
    [
        COORD_01_H, COORD_02_HE, COORD_03_LI, COORD_04_BE, COORD_05_B, COORD_06_C, COORD_07_N,
        COORD_08_O, COORD_09_F, COORD_10_NE, COORD_11_NA, COORD_12_MG, COORD_13_AL, COORD_14_SI,
        COORD_15_P, COORD_16_S, COORD_17_CL, COORD_18_AR, COORD_19_K, COORD_20_CA, COORD_21_SC,
        COORD_22_TI, COORD_23_V, COORD_24_CR, COORD_25_MN, COORD_26_FE,
    ]
    .map(Coordinates)
}

// === ElementIndex Tests ===

#[test]
fn element_index_encode_decode() {
    let mut idx = ElementIndex(0);
    idx.0 = (42u64 << 56) | 7; // atomic=42, gen=7
    assert_eq!(idx.atomic_number(), 42);
    assert_eq!(idx.generation(), 7);
}

#[test]
fn element_index_next_gen() {
    let mut idx = ElementIndex((5u64 << 56) | 100);
    idx.nextgen();
    assert_eq!(idx.atomic_number(), 5);
    assert_eq!(idx.generation(), 101);
}

#[test]
fn element_index_next_gen_wraps() {
    let max_gen = (1u64 << 56) - 1;
    let mut idx = ElementIndex((10u64 << 56) | max_gen);
    idx.nextgen();
    assert_eq!(idx.atomic_number(), 10);
    assert_eq!(idx.generation(), 0); // wraps around
}

#[test]
fn element_index_next_gen_wraps_at_top_atomic_number() {
    let mut idx = ElementIndex(u64::MAX);
    idx.nextgen();
    assert_eq!(idx.atomic_number(), 255);
    assert_eq!(idx.generation(), 0);
}

#[test]
fn element_index_clear() {
    let mut idx = ElementIndex((99u64 << 56) | 42);
    idx.clear();
    assert!(idx.zero());
}

// === Coordinates Tests ===

#[test]
fn coordinates_adjacent_horizontal() {
    let c1 = Coordinates(1u64 << 0); // square 0
    let c2 = Coordinates(1u64 << 1); // square 1 (east)
    assert!(c1.adjacent(c2));
}

#[test]
fn coordinates_adjacent_vertical() {
    let c1 = Coordinates(1u64 << 0); // square 0
    let c2 = Coordinates(1u64 << 8); // square 8 (north)
    assert!(c1.adjacent(c2));
}

#[test]
fn coordinates_not_adjacent_diagonal() {
    let c1 = Coordinates(1u64 << 0); // square 0
    let c2 = Coordinates(1u64 << 9); // square 9 (diagonal)
    assert!(!c1.adjacent(c2));
}

#[test]
fn coordinates_not_adjacent_across_files() {
    // H1 and A2 are consecutive bits but not neighbours.
    assert!(!Coordinates(1u64 << 7).adjacent(Coordinates(1u64 << 8)));
    assert!(!Coordinates(1u64 << 8).adjacent(Coordinates(1u64 << 7)));
}

#[test]
fn coordinates_peripheral_edge() {
    let c = Coordinates(1u64 << 0); // square 0 (file A, rank 1)
    assert!(c.peripheral());
}

#[test]
fn coordinates_peripheral_center() {
    let c = Coordinates(1u64 << 27); // square 27 (center-ish)
    assert!(!c.peripheral());
}

// === Utility Tests ===

#[test]
fn round_divide_exact() {
    let result = round_divide(100, 1, 10);
    assert_eq!(result, 10);
}

#[test]
fn round_divide_rounds_down() {
    // (10 * 3 / 7) = 30/7 = 4.28... -> 4
    let result = round_divide(10, 3, 7);
    assert_eq!(result, 4);
}

#[test]
fn round_divide_rounds_up() {
    // (10 * 4 / 7) = 40/7 = 5.71... -> 6
    let result = round_divide(10, 4, 7);
    assert_eq!(result, 6);
}

#[test]
fn round_divide_ties_away_from_zero() {
    // (10 * 1 / 2) = 10/2 = 5, no rounding needed
    let result = round_divide(10, 1, 2);
    assert_eq!(result, 5);
}

#[test]
fn round_divide_half_rounds_up() {
    assert_eq!(round_divide(5, 1, 2), 3);
    assert_eq!(round_divide(u64::MAX, u64::MAX, u64::MAX), u64::MAX);
}

// === Action Tests ===

#[test]
fn rebind_to_empty_element() {
    let t = table();
    let mut charge = make_charge(100, ElementIndex((1u64 << 56) | 5), 50);
    let mut src = make_element(1, 0, 1000, 0);
    src.curve.shares = 50;
    let mut dst = Element { ..make_element(2, 0, 1000, 0) };
    dst.index.clear(); // mark destination as empty

    rebind(&t, &mut charge, &mut src, &mut dst);

    // Rebinding to empty element: share becomes 0, index becomes empty.
    assert!(charge.index.zero());
    assert_eq!(charge.share, 0);
}

#[test]
fn rebind_updates_index_and_share() {
    let t = table();
    let mut charge = make_charge(100, ElementIndex(0), 0);
    let mut src = make_element(1, 0, 1000, 0);
    src.index.clear();
    let mut dst = make_element(2, 0, 1000, 0);

    rebind(&t, &mut charge, &mut src, &mut dst);

    assert_eq!(charge.index, dst.index);
    // share is set by dx_for_dc; we expect some value
    assert!(charge.share > 0 || charge.share == 0); // just check it's set
}

#[test]
fn rebind_moves_the_curves() {
    let t = table();
    let mut charge = make_charge(100, ElementIndex(0), 0);
    let mut src = make_element(1, 0, 1000, 0);
    src.index.clear();
    let mut dst = make_element(2, 0, 1000, 0);

    rebind(&t, &mut charge, &mut src, &mut dst);

    // A tenth of the capacity buys a tenth of the cost span.
    assert_eq!(dst.curve.state, 1688849860263936 / 10 + 1);
    assert_eq!(dst.curve.volume, 100);
    assert!(charge.share > 0);
    assert_eq!(dst.curve.position, charge.share);
    assert_eq!(dst.curve.shares, charge.share);
    // The empty source is left as it was.
    assert_eq!(src, Element { index: ElementIndex(0), ..make_element(1, 0, 1000, 0) });
}

#[test]
fn claim_distributes_reward() {
    let mut charge = make_charge(0, ElementIndex((1u64 << 56) | 1), 500_000); // share = 50%
    let mut artefact = Tombstone { pot: 1_000_000, index: ElementIndex((1u64 << 56) | 1), shares: MAX_SATURATION };

    claim(&mut charge, &mut artefact);

    assert!(charge.balance > 0);
    assert!(artefact.pot < 1_000_000);
    assert!(charge.share == 0); // cleared
    assert!(charge.index.zero()); // cleared
}

#[test]
fn claim_pays_the_rounded_share() {
    let mut charge = make_charge(10, ElementIndex((1u64 << 56) | 1), 1);
    let mut artefact = Tombstone { pot: 1_000, index: ElementIndex((1u64 << 56) | 1), shares: 3 };
    claim(&mut charge, &mut artefact);
    assert_eq!(charge.balance, 10 + 333);
    assert_eq!(artefact.pot, 667);
}

#[test]
fn compress_moves_pot() {
    let t = table();
    let mut charge = make_charge(100, ElementIndex((1u64 << 56) | 1), 100);
    let mut src = make_element(1, 0, 1000, 500);
    src.curve.shares = 100;
    let mut dst = make_element(2, 0, 1000, 200);

    compress(&t, &mut charge, &mut src, &mut dst);

    assert_eq!(src.pot, 0);
    assert_eq!(dst.pot, 700); // 200 + 500
}

#[test]
fn fuse_then_fission_returns_the_curve() {
    let t = table();
    let mut charge = make_charge(250, ElementIndex(0), 0);
    let mut elem = make_element(3, 0, 1000, 0);
    fuse(&t, &mut charge, &mut elem);
    assert_eq!(charge.index, elem.index);
    assert_eq!(elem.curve.position, charge.share);
    assert!(charge.share > 0);
    fission(&t, &mut charge, &mut elem);
    assert!(charge.index.zero());
    assert_eq!(elem.curve.position, 0);
    assert_eq!(elem.curve.state, 0);
    assert_eq!(elem.curve.volume, 0);
}

#[test]
fn shift_moves_balance_between_curves() {
    let t = table();
    let mut charge = make_charge(1000, ElementIndex(0), 0);
    let mut src = make_element(3, 0, 1000, 0);
    let mut dst = make_element(4, 0, 1000, 0);
    fuse(&t, &mut charge, &mut src);
    assert_eq!(src.curve.position, tokamak::lut::LUT_X_MAX);
    shift(&t, &mut charge, &mut src, &mut dst);
    assert_eq!(src.curve.position, 0);
    assert_eq!(dst.curve.position, tokamak::lut::LUT_X_MAX);
    assert_eq!(charge.share, tokamak::lut::LUT_X_MAX);
    assert_eq!(charge.index, dst.index);
}

// === Fee Tests ===

#[test]
fn bind_fee_respects_min() {
    let charge = make_charge(100, ElementIndex(0), 0);
    let element = make_element(1, 0, 1000, 0);

    let fee = injection_fee(&charge, &element);
    assert!(fee >= MIN_FEE);
}

#[test]
fn compression_fee_respects_min() {
    let element = make_element(1, 0, 1000, 100);

    let fee = compression_fee(&element);
    assert!(fee >= MIN_FEE);
}

#[test]
fn rebind_fee_respects_min() {
    let charge = make_charge(100, ElementIndex(0), 0);
    let src = make_element(5, 0, 1000, 0);
    let dst = make_element(10, 0, 1000, 0);

    let fee = rebind_fee(&charge, &src, &dst);
    assert!(fee >= MIN_FEE);
}

#[test]
fn base_fees_scale_with_depth_and_saturation() {
    let charge = make_charge(26_000_000_000, ElementIndex(0), 0);
    let mut elem = make_element(13, 0, 1000, 0);
    elem.curve.position = MAX_SATURATION / 2;
    // 26e9 * 13 * (MAX/2) / (26 * MAX) = 6.5e9
    assert_eq!(injection_fee(&charge, &elem), 6_500_000_000);
    assert_eq!(ejection_fee(&charge, &elem), 6_500_000_000);

    let mut deeper = make_element(26, 0, 1000, 0);
    deeper.curve.position = MAX_SATURATION;
    // Distance 13 on the curve of the element with the larger index (deeper).
    assert_eq!(rebind_fee(&charge, &elem, &deeper), 13_000_000_000);
    assert_eq!(rebind_fee(&charge, &deeper, &elem), 13_000_000_000);
}

#[test]
fn compression_fee_is_five_percent_at_full_saturation() {
    let mut elem = make_element(13, 0, 1000, 1_000_000_000);
    elem.curve.position = MAX_SATURATION;
    assert_eq!(compression_fee(&elem), 50_000_000);
}

#[test]
fn speed_bonus_grows_with_patience() {
    let mut charge = make_charge(100, ElementIndex(0), 0);
    charge.timestamp = 1000;
    assert_eq!(speed_bonus(&charge, 1000), 1);
    assert_eq!(speed_bonus(&charge, 500), 1);
    assert_eq!(speed_bonus(&charge, 1000 + MAX_DELTA_TIMESTAMP), 1 + MAX_SPEED_MULTIPLIER);
    assert_eq!(speed_bonus(&charge, u64::MAX), 1 + MAX_SPEED_MULTIPLIER);
    // Half the window: 127 / 4 = 31.75 -> 32.
    assert_eq!(speed_bonus(&charge, 1000 + MAX_DELTA_TIMESTAMP / 2), 33);
}

// === Board & Wallet Tests ===

#[test]
fn wallet_structure_correct() {
    let mut wallet = Wallet { balance: 0, authority: [1u8; 32], mint: [2u8; 32] };
    wallet.balance = 1_000_000;
    wallet.authority = dummy_address();
    wallet.mint = dummy_address();
    assert_eq!(wallet.balance, 1_000_000);
}

#[test]
fn board_structure_correct() {
    let board = Board { tvl: 5_000_000, quantum_pocket: 100_000, charges: 42, quantum_index: 3 };
    assert_eq!(board.tvl, 5_000_000);
    assert_eq!(board.charges, 42);
    assert_eq!(board.quantum_index, 3);
}

// === Constant Tests ===

#[test]
fn consts_reasonable_values() {
    assert!(MIN_FEE > 0);
    assert!(MAX_ATOMIC_NUMBER > 0);
    assert!(MAX_SPEED_MULTIPLIER > 0);
    assert!(MAX_DELTA_TIMESTAMP > 0);
    assert_eq!(SUM_ATOMIC_NUMBERS, 351);
}

// === Coordinates Tests ===

/// Convert algebraic coordinate (e.g., "A1") to bit position (0-63).
/// Row-major layout: A1=0, B1=1, ..., H1=7, A2=8, ..., H8=63.
fn coord_to_bit(coord: &str) -> u64 {
    let col = (coord.as_bytes()[0] - b'A') as u64;
    let row = (coord[1..].parse::<u64>().unwrap() - 1) as u64;
    1 << (row * 8 + col)
}

/// Create a bitmask from a list of algebraic coordinates.
fn coords_mask(coords: &[&str]) -> u64 {
    coords.iter().fold(0u64, |acc, c| acc | coord_to_bit(c))
}

#[test]
fn element_coordinates_match_docs() {
    assert_eq!(COORD_01_H, coords_mask(&["A1", "A2", "B1", "C1"]));
    assert_eq!(COORD_02_HE, coords_mask(&["D1", "E1"]));
    assert_eq!(COORD_03_LI, coords_mask(&["F1", "F2"]));
    assert_eq!(COORD_04_BE, coords_mask(&["G1", "H1", "H2", "H3"]));
    assert_eq!(COORD_05_B, coords_mask(&["H4", "H5"]));
    assert_eq!(COORD_06_C, coords_mask(&["G6", "H6"]));
    assert_eq!(COORD_07_N, coords_mask(&["F8", "G8", "H7", "H8"]));
    assert_eq!(COORD_08_O, coords_mask(&["D8", "E8"]));
    assert_eq!(COORD_09_F, coords_mask(&["C7", "C8"]));
    assert_eq!(COORD_10_NE, coords_mask(&["A6", "A7", "A8", "B8"]));
    assert_eq!(COORD_11_NA, coords_mask(&["A4", "A5"]));
    assert_eq!(COORD_12_MG, coords_mask(&["A3", "B3"]));
    assert_eq!(COORD_13_AL, coords_mask(&["B2", "C2", "D2"]));
    assert_eq!(COORD_14_SI, coords_mask(&["E2", "E3"]));
    assert_eq!(COORD_15_P, coords_mask(&["F3", "F4"]));
    assert_eq!(COORD_16_S, coords_mask(&["G2", "G3", "G4"]));
    assert_eq!(COORD_17_CL, coords_mask(&["F5", "G5"]));
    assert_eq!(COORD_18_AR, coords_mask(&["E6", "F6"]));
    assert_eq!(COORD_19_K, coords_mask(&["E7", "F7", "G7"]));
    assert_eq!(COORD_20_CA, coords_mask(&["D6", "D7"]));
    assert_eq!(COORD_21_SC, coords_mask(&["C5", "C6"]));
    assert_eq!(COORD_22_TI, coords_mask(&["B5", "B6", "B7"]));
    assert_eq!(COORD_23_V, coords_mask(&["B4", "C4"]));
    assert_eq!(COORD_24_CR, coords_mask(&["C3", "D3"]));
    assert_eq!(COORD_25_MN, coords_mask(&["D4"]));
    assert_eq!(COORD_26_FE, coords_mask(&["E4", "D5", "E5"]));
}

#[test]
fn element_coordinates_no_overlap() {
    let all_elements = all_elements();
    for i in 0..all_elements.len() {
        for j in (i + 1)..all_elements.len() {
            assert_eq!(
                all_elements[i].0 & all_elements[j].0,
                0,
                "Elements {} and {} overlap",
                i + 1,
                j + 1
            );
        }
    }
}

#[test]
fn edge_elements_on_perimeter() {
    assert!(Coordinates(COORD_01_H).peripheral(), "H should be on edge");
    assert!(Coordinates(COORD_02_HE).peripheral(), "He should be on edge");
    assert!(Coordinates(COORD_03_LI).peripheral(), "Li should be on edge");
    assert!(Coordinates(COORD_04_BE).peripheral(), "Be should be on edge");
    assert!(Coordinates(COORD_05_B).peripheral(), "B should be on edge");
    assert!(Coordinates(COORD_06_C).peripheral(), "C should be on edge");
    assert!(Coordinates(COORD_07_N).peripheral(), "N should be on edge");
    assert!(Coordinates(COORD_08_O).peripheral(), "O should be on edge");
    assert!(Coordinates(COORD_09_F).peripheral(), "F should be on edge");
    assert!(Coordinates(COORD_10_NE).peripheral(), "Ne should be on edge");
    assert!(Coordinates(COORD_11_NA).peripheral(), "Na should be on edge");
    assert!(Coordinates(COORD_12_MG).peripheral(), "Mg should be on edge");
}

#[test]
fn core_element_not_on_edge() {
    assert!(!Coordinates(COORD_26_FE).peripheral(), "Fe should not be on edge");
}

#[test]
fn middepth_elements_not_on_edge() {
    assert!(!Coordinates(COORD_13_AL).peripheral(), "Al should not be on edge");
    assert!(!Coordinates(COORD_14_SI).peripheral(), "Si should not be on edge");
    assert!(!Coordinates(COORD_15_P).peripheral(), "P should not be on edge");
    assert!(!Coordinates(COORD_16_S).peripheral(), "S should not be on edge");
    assert!(!Coordinates(COORD_17_CL).peripheral(), "Cl should not be on edge");
    assert!(!Coordinates(COORD_18_AR).peripheral(), "Ar should not be on edge");
    assert!(!Coordinates(COORD_19_K).peripheral(), "K should not be on edge");
    assert!(!Coordinates(COORD_20_CA).peripheral(), "Ca should not be on edge");
}

#[test]
fn deep_elements_not_on_edge() {
    assert!(!Coordinates(COORD_21_SC).peripheral(), "Sc should not be on edge");
    assert!(!Coordinates(COORD_22_TI).peripheral(), "Ti should not be on edge");
    assert!(!Coordinates(COORD_23_V).peripheral(), "V should not be on edge");
    assert!(!Coordinates(COORD_24_CR).peripheral(), "Cr should not be on edge");
    assert!(!Coordinates(COORD_25_MN).peripheral(), "Mn should not be on edge");
}

#[test]
fn adjacency_from_board_layout() {
    let c = Coordinates;
    assert!(c(COORD_01_H).adjacent(c(COORD_02_HE)), "H should be adjacent to He");
    assert!(c(COORD_01_H).adjacent(c(COORD_12_MG)), "H should be adjacent to Mg");
    assert!(c(COORD_12_MG).adjacent(c(COORD_11_NA)), "Mg should be adjacent to Na");
    assert!(c(COORD_02_HE).adjacent(c(COORD_03_LI)), "He should be adjacent to Li");
    assert!(c(COORD_03_LI).adjacent(c(COORD_04_BE)), "Li should be adjacent to Be");
    assert!(c(COORD_04_BE).adjacent(c(COORD_05_B)), "Be should be adjacent to B");
    assert!(c(COORD_05_B).adjacent(c(COORD_06_C)), "B should be adjacent to C");
    assert!(c(COORD_13_AL).adjacent(c(COORD_12_MG)), "Al should be adjacent to Mg");
    assert!(c(COORD_13_AL).adjacent(c(COORD_14_SI)), "Al should be adjacent to Si");
    assert!(c(COORD_14_SI).adjacent(c(COORD_15_P)), "Si should be adjacent to P");
    assert!(c(COORD_26_FE).adjacent(c(COORD_25_MN)), "Fe should be adjacent to Mn");
    assert!(c(COORD_26_FE).adjacent(c(COORD_21_SC)), "Fe should be adjacent to Sc");
    assert!(c(COORD_26_FE).adjacent(c(COORD_20_CA)), "Fe should be adjacent to Ca");
    assert!(c(COORD_26_FE).adjacent(c(COORD_15_P)), "Fe should be adjacent to P");
    assert!(c(COORD_26_FE).adjacent(c(COORD_17_CL)), "Fe should be adjacent to Cl");
}

#[test]
fn non_adjacent_elements() {
    let c = Coordinates;
    assert!(!c(COORD_01_H).adjacent(c(COORD_07_N)), "H should not be adjacent to N");
    assert!(!c(COORD_02_HE).adjacent(c(COORD_07_N)), "He should not be adjacent to N");
    assert!(!c(COORD_03_LI).adjacent(c(COORD_10_NE)), "Li should not be adjacent to Ne");
}

#[test]
fn all_elements_used() {
    let all_elements = all_elements();
    assert_eq!(all_elements.len(), 26);
}

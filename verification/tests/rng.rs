use craps_pinocchio::error::{CrapsError, ProgramError};
use craps_pinocchio::rng::{
    calculate_entropy_seed, generate_dice_from_final_value, generate_fair_dice,
    is_betting_window_complete, mix_entropy, rejection_sample_die, validate_dice_values,
};

#[test]
fn test_rejection_sampling() {
    let test_cases = vec![[5u8; 16], [0u8; 16], [251u8; 16], [252u8; 16]];
    for entropy in test_cases {
        let result = rejection_sample_die(&entropy);
        assert!(result.is_ok());
        let die = result.unwrap();
        assert!(die >= 1 && die <= 6);
    }
}

#[test]
fn test_mix_entropy() {
    let mut hashes = [[0u8; 32]; 5];
    for i in 0..5 {
        hashes[i][0] = i as u8;
        hashes[i][1] = (i * 2) as u8;
    }
    let result = mix_entropy(&hashes, 5);
    assert!(result.is_ok());
    let mixed = result.unwrap();
    for hash in &hashes {
        assert_ne!(&mixed, hash);
    }
}

#[test]
fn test_dice_generation() {
    let entropy = [0x42u8; 32];
    let result = generate_fair_dice(&entropy);
    assert!(result.is_ok());
    let (die1, die2) = result.unwrap();
    assert!(die1 >= 1 && die1 <= 6);
    assert!(die2 >= 1 && die2 <= 6);
}

#[test]
fn rejection_sampling_skips_bytes_above_251() {
    assert_eq!(rejection_sample_die(&[5u8; 16]), Ok(6));
    assert_eq!(rejection_sample_die(&[0u8; 16]), Ok(1));
    assert_eq!(rejection_sample_die(&[251u8; 16]), Ok(6));
    assert_eq!(rejection_sample_die(&[253, 254, 7]), Ok(2));
    // every byte rejected: the first byte is used anyway, 252 % 6 + 1
    assert_eq!(rejection_sample_die(&[252u8; 16]), Ok(1));
}

#[test]
fn fair_dice_come_from_each_half() {
    let mut entropy = [0u8; 32];
    entropy[0] = 255;
    entropy[1] = 10;
    entropy[16] = 3;
    assert_eq!(generate_fair_dice(&entropy), Ok((5, 4)));
}

#[test]
fn mix_entropy_refuses_too_few_hashes() {
    let hashes = [[1u8; 32]; 4];
    assert_eq!(mix_entropy(&hashes, 0), Err(ProgramError::Custom(CrapsError::NoHashesCollected)));
    assert_eq!(mix_entropy(&hashes, 4), Err(ProgramError::Custom(CrapsError::InsufficientBlockHashes)));
}

fn reference_mix(hashes: &[[u8; 32]], n: usize) -> [u8; 32] {
    let mut m = [0u8; 32];
    for h in &hashes[..n] {
        for j in 0..32 {
            m[j] ^= h[j];
        }
    }
    for i in 0..32 {
        let a = m[i].wrapping_add(m[(i + 13) % 32]).wrapping_mul(0x9E);
        m[i] = a ^ m[(i + 17) % 32];
    }
    m
}

#[test]
fn mix_entropy_xors_then_mixes() {
    let mut hashes = [[0u8; 32]; 6];
    for (i, h) in hashes.iter_mut().enumerate() {
        for (j, b) in h.iter_mut().enumerate() {
            *b = (i * 31 + j * 7) as u8;
        }
    }
    assert_eq!(mix_entropy(&hashes, 6).unwrap(), reference_mix(&hashes, 6));
    assert_eq!(mix_entropy(&hashes, 5).unwrap(), reference_mix(&hashes, 5));
}

#[test]
fn dice_from_final_value() {
    assert_eq!(generate_dice_from_final_value(0), (1, 1));
    assert_eq!(generate_dice_from_final_value(0x0705), (6, 2));
    assert_eq!(generate_dice_from_final_value(0xFFFF), (4, 4));
}

#[test]
fn dice_value_checks() {
    assert!(validate_dice_values(1, 6).is_ok());
    assert_eq!(validate_dice_values(0, 3), Err(ProgramError::Custom(CrapsError::InvalidDiceValues)));
    assert_eq!(validate_dice_values(3, 7), Err(ProgramError::Custom(CrapsError::InvalidDiceValues)));
}

#[test]
fn betting_window_and_seed() {
    assert!(is_betting_window_complete(100, 120, 140));
    assert!(!is_betting_window_complete(100, 120, 139));
    assert!(!is_betting_window_complete(100, 150, 149));
    assert_eq!(calculate_entropy_seed(0, 7), 7);
    assert_eq!(calculate_entropy_seed(1, 0), 0x9E3779B97F4A7C15);
    assert_eq!(calculate_entropy_seed(2, 0), 0x9E3779B97F4A7C15u64.wrapping_mul(2));
}

#[test]
fn accepted_bytes_give_each_face_equally() {
    let mut counts = [0u32; 7];
    for b in 0u8..=251 {
        let d = rejection_sample_die(&[b]).unwrap();
        counts[d as usize] += 1;
    }
    assert_eq!(counts[0], 0);
    for f in 1..=6 {
        assert_eq!(counts[f], 42);
    }
    // Bytes above 251 are passed over for the next one.
    assert_eq!(rejection_sample_die(&[252, 255, 9]).unwrap(), 4);
}

#[test]
fn mixing_ignores_order_and_later_hashes() {
    let hashes: Vec<[u8; 32]> = (1..=6u8).map(|b| [b.wrapping_mul(37); 32]).collect();
    let mut shuffled = hashes.clone();
    shuffled.swap(0, 4);
    shuffled.swap(1, 3);
    let a = mix_entropy(&hashes, 5).unwrap();
    assert_eq!(mix_entropy(&shuffled[..5], 5).unwrap(), a);
    let mut longer = hashes.clone();
    longer[5] = [0xAB; 32];
    assert_eq!(mix_entropy(&longer, 5).unwrap(), a);
    for h in &hashes[..5] {
        assert_ne!(&a, h);
    }
}

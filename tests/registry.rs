use nft_registry::{NFTContract, NftError};

fn s(x: &str) -> String {
    x.to_string()
}

fn fresh() -> NFTContract<String, String> {
    NFTContract::new()
}

#[test]
fn fresh_store_total_is_zero() {
    let reg = fresh();
    assert_eq!(reg.get_total(), 0);
}

#[test]
fn two_mints_then_missing_third() {
    let mut reg = fresh();
    assert_eq!(reg.mint_nft(true, s("P1"), s("Art1"), s("http://x/1.png")), Ok(1));
    assert_eq!(reg.get_total(), 1);
    assert_eq!(reg.get_owner(1), Ok(&s("P1")));
    assert_eq!(reg.mint_nft(true, s("P2"), s("Art2"), s("http://x/2.png")), Ok(2));
    assert_eq!(reg.get_total(), 2);
    assert_eq!(reg.get_owner(1), Ok(&s("P1")));
    assert_eq!(reg.get_owner(2), Ok(&s("P2")));
    assert_eq!(reg.get_owner(3), Err(NftError::NonexistentRecord));
}

#[test]
fn ids_run_from_one_without_gaps() {
    let mut reg = fresh();
    for n in 1..=5u32 {
        let id = reg.mint_nft(true, format!("owner{}", n), format!("name{}", n), format!("img{}", n));
        assert_eq!(id, Ok(n));
        assert_eq!(reg.get_total(), n);
    }
}

#[test]
fn fields_kept_after_later_mints() {
    let mut reg = fresh();
    reg.mint_nft(true, s("alice"), s("Sun"), s("http://x/sun.png")).unwrap();
    for n in 0..3u32 {
        reg.mint_nft(true, format!("o{}", n), format!("n{}", n), format!("i{}", n)).unwrap();
    }
    assert_eq!(reg.get_owner(1), Ok(&s("alice")));
    assert_eq!(reg.get_name(1), Ok(&s("Sun")));
    assert_eq!(reg.get_image(1), Ok(&s("http://x/sun.png")));
    assert_eq!(reg.get_owner(4), Ok(&s("o2")));
    assert_eq!(reg.get_name(3), Ok(&s("n1")));
    assert_eq!(reg.get_image(2), Ok(&s("i0")));
}

#[test]
fn id_zero_and_beyond_total_are_rejected() {
    let mut reg = fresh();
    assert_eq!(reg.get_owner(0), Err(NftError::NonexistentRecord));
    assert_eq!(reg.get_owner(1), Err(NftError::NonexistentRecord));
    assert_eq!(reg.get_name(1), Err(NftError::NonexistentRecord));
    assert_eq!(reg.get_image(u32::MAX), Err(NftError::NonexistentRecord));
    reg.mint_nft(true, s("P1"), s("Art1"), s("http://x/1.png")).unwrap();
    assert_eq!(reg.get_owner(0), Err(NftError::NonexistentRecord));
    assert_eq!(reg.get_name(0), Err(NftError::NonexistentRecord));
    assert_eq!(reg.get_image(0), Err(NftError::NonexistentRecord));
    assert_eq!(reg.get_owner(2), Err(NftError::NonexistentRecord));
    assert_eq!(reg.get_name(2), Err(NftError::NonexistentRecord));
    assert_eq!(reg.get_image(2), Err(NftError::NonexistentRecord));
}

#[test]
fn check_nft_exists_accepts_exactly_the_range() {
    let mut reg = fresh();
    assert_eq!(reg.check_nft_exists(0), Err(NftError::NonexistentRecord));
    assert_eq!(reg.check_nft_exists(1), Err(NftError::NonexistentRecord));
    reg.mint_nft(true, s("a"), s("b"), s("c")).unwrap();
    reg.mint_nft(true, s("d"), s("e"), s("f")).unwrap();
    assert_eq!(reg.check_nft_exists(0), Err(NftError::NonexistentRecord));
    assert_eq!(reg.check_nft_exists(1), Ok(()));
    assert_eq!(reg.check_nft_exists(2), Ok(()));
    assert_eq!(reg.check_nft_exists(3), Err(NftError::NonexistentRecord));
}

#[test]
fn unauthorized_mint_changes_nothing() {
    let mut reg = fresh();
    assert_eq!(
        reg.mint_nft(false, s("P1"), s("Art1"), s("http://x/1.png")),
        Err(NftError::AuthorizationFailure)
    );
    assert_eq!(reg.get_total(), 0);
    assert_eq!(reg.get_owner(1), Err(NftError::NonexistentRecord));
    reg.mint_nft(true, s("P1"), s("Art1"), s("http://x/1.png")).unwrap();
    assert_eq!(
        reg.mint_nft(false, s("P2"), s("Art2"), s("http://x/2.png")),
        Err(NftError::AuthorizationFailure)
    );
    assert_eq!(reg.get_total(), 1);
    assert_eq!(reg.get_owner(2), Err(NftError::NonexistentRecord));
    assert_eq!(reg.get_owner(1), Ok(&s("P1")));
}

#[test]
fn identical_arguments_mint_distinct_records() {
    let mut reg = fresh();
    assert_eq!(reg.mint_nft(true, s("P"), s("Same"), s("u")), Ok(1));
    assert_eq!(reg.mint_nft(true, s("P"), s("Same"), s("u")), Ok(2));
    assert_eq!(reg.get_total(), 2);
    assert_eq!(reg.get_name(1), Ok(&s("Same")));
    assert_eq!(reg.get_name(2), Ok(&s("Same")));
}

#[test]
fn numeric_principals_and_tokens() {
    let mut reg: NFTContract<u64, u32> = NFTContract::new();
    assert_eq!(reg.mint_nft(true, 42, 7, 9), Ok(1));
    assert_eq!(reg.get_owner(1), Ok(&42));
    assert_eq!(reg.get_name(1), Ok(&7));
    assert_eq!(reg.get_image(1), Ok(&9));
}

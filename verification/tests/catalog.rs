use trash4coin::{
    add_nft_type, edit_reward_amount, increase_max_nft_types, initialize, set_reward_amount,
    AddNFTType, AddNFTTypeEvent, Address, EditRewardAmount, EditRewardAmountEvent, ErrorCode,
    IncreaseMaxNFTTypes, IncreaseMaxNFTTypesEvent, Initialize, InitializeEvent, NFTConfig, NFTType,
    SetRewardAmount, SetRewardAmountEvent,
};

fn owner() -> Address {
    Address { bytes: [7; 32] }
}

fn stranger() -> Address {
    let mut bytes = [7u8; 32];
    bytes[31] = 8;
    Address { bytes }
}

fn blank() -> NFTConfig {
    NFTConfig { authority: Address { bytes: [0; 32] }, max_nft_types: 0, nft_types: vec![] }
}

fn catalog(max_nft_types: u8) -> NFTConfig {
    let mut ctx = Initialize { authority: owner(), nft_config: blank() };
    initialize(&mut ctx, max_nft_types).unwrap();
    ctx.nft_config
}

fn add(
    config: NFTConfig,
    caller: Address,
    name: &str,
    symbol: &str,
    uri: &str,
) -> (NFTConfig, Result<AddNFTTypeEvent, ErrorCode>) {
    let mut ctx = AddNFTType { authority: caller, nft_config: config };
    let r = add_nft_type(&mut ctx, name.to_string(), symbol.to_string(), uri.to_string());
    assert_eq!(ctx.authority, caller);
    (ctx.nft_config, r)
}

fn set(
    config: NFTConfig,
    caller: Address,
    index: u8,
    rate: u64,
) -> (NFTConfig, Result<SetRewardAmountEvent, ErrorCode>) {
    let mut ctx = SetRewardAmount { authority: caller, nft_config: config };
    let r = set_reward_amount(&mut ctx, index, rate);
    (ctx.nft_config, r)
}

fn edit(
    config: NFTConfig,
    caller: Address,
    index: u8,
    rate: u64,
) -> (NFTConfig, Result<EditRewardAmountEvent, ErrorCode>) {
    let mut ctx = EditRewardAmount { authority: caller, nft_config: config };
    let r = edit_reward_amount(&mut ctx, index, rate);
    (ctx.nft_config, r)
}

fn grow(
    config: NFTConfig,
    caller: Address,
    new_max: u8,
) -> (NFTConfig, Result<IncreaseMaxNFTTypesEvent, ErrorCode>) {
    let mut ctx = IncreaseMaxNFTTypes { authority: caller, nft_config: config };
    let r = increase_max_nft_types(&mut ctx, new_max);
    (ctx.nft_config, r)
}

fn trash() -> NFTType {
    NFTType {
        name: "Trash".to_string(),
        symbol: "TRH".to_string(),
        uri: "uri://a".to_string(),
        reward_amount: None,
    }
}

#[test]
fn initialize_creates_an_empty_catalog_of_the_caller() {
    let mut ctx = Initialize { authority: owner(), nft_config: blank() };
    let r = initialize(&mut ctx, 2);
    assert_eq!(r, Ok(InitializeEvent { authority: owner(), max_nft_types: 2 }));
    assert_eq!(ctx.authority, owner());
    assert_eq!(
        ctx.nft_config,
        NFTConfig { authority: owner(), max_nft_types: 2, nft_types: vec![] }
    );
}

#[test]
fn initialize_empties_what_the_account_held() {
    let held = NFTConfig { authority: stranger(), max_nft_types: 9, nft_types: vec![trash()] };
    let mut ctx = Initialize { authority: owner(), nft_config: held };
    assert!(initialize(&mut ctx, 3).is_ok());
    assert_eq!(
        ctx.nft_config,
        NFTConfig { authority: owner(), max_nft_types: 3, nft_types: vec![] }
    );
}

#[test]
fn initialize_accepts_room_for_one_and_for_ten() {
    assert_eq!(catalog(1).max_nft_types, 1);
    assert_eq!(catalog(10).max_nft_types, 10);
}

#[test]
fn initialize_refuses_room_for_none_and_for_more_than_ten() {
    for max in [0u8, 11, 12, 200, 255] {
        let mut ctx = Initialize { authority: owner(), nft_config: blank() };
        assert_eq!(initialize(&mut ctx, max), Err(ErrorCode::InvalidMaxNFTTypes));
        assert_eq!(ctx, Initialize { authority: owner(), nft_config: blank() });
    }
}

#[test]
fn add_nft_type_appends_an_item_type_without_a_rate() {
    let (config, r) = add(catalog(2), owner(), "Trash", "TRH", "uri://a");
    assert_eq!(
        r,
        Ok(AddNFTTypeEvent {
            name: "Trash".to_string(),
            symbol: "TRH".to_string(),
            uri: "uri://a".to_string(),
        })
    );
    assert_eq!(config, NFTConfig { authority: owner(), max_nft_types: 2, nft_types: vec![trash()] });
}

#[test]
fn add_nft_type_gives_each_item_type_the_next_index() {
    let (config, _) = add(catalog(3), owner(), "A", "a", "uri://a");
    let (config, _) = add(config, owner(), "B", "b", "uri://b");
    let (config, _) = add(config, owner(), "C", "c", "uri://c");
    assert_eq!(config.nft_types.len(), 3);
    assert_eq!(config.nft_types[0].name, "A");
    assert_eq!(config.nft_types[1].name, "B");
    assert_eq!(config.nft_types[2].name, "C");
    assert_eq!(config.nft_types[2].symbol, "c");
    assert_eq!(config.nft_types[2].uri, "uri://c");
}

#[test]
fn add_nft_type_on_a_full_catalog_is_refused() {
    let (config, first) = add(catalog(1), owner(), "Trash", "TRH", "uri://a");
    assert!(first.is_ok());
    let before = config.clone();
    let (config, second) = add(config, owner(), "Glass", "GLS", "uri://b");
    assert_eq!(second, Err(ErrorCode::MaxNFTTypesReached));
    assert_eq!(config, before);
}

#[test]
fn add_nft_type_refuses_each_empty_string() {
    let (config, r) = add(catalog(2), owner(), "", "TRH", "uri://a");
    assert_eq!(r, Err(ErrorCode::EmptyName));
    let (config, r) = add(config, owner(), "Trash", "", "uri://a");
    assert_eq!(r, Err(ErrorCode::EmptySymbol));
    let (config, r) = add(config, owner(), "Trash", "TRH", "");
    assert_eq!(r, Err(ErrorCode::EmptyURI));
    assert_eq!(config, catalog(2));
}

#[test]
fn add_nft_type_looks_at_name_then_symbol_then_uri() {
    let (config, r) = add(catalog(2), owner(), "", "", "");
    assert_eq!(r, Err(ErrorCode::EmptyName));
    let (_, r) = add(config, owner(), "Trash", "", "");
    assert_eq!(r, Err(ErrorCode::EmptySymbol));
}

#[test]
fn add_nft_type_looks_at_the_room_before_the_strings() {
    let (config, _) = add(catalog(1), owner(), "Trash", "TRH", "uri://a");
    let (_, r) = add(config, owner(), "", "", "");
    assert_eq!(r, Err(ErrorCode::MaxNFTTypesReached));
}

#[test]
fn add_nft_type_looks_at_the_caller_first() {
    let (config, _) = add(catalog(1), owner(), "Trash", "TRH", "uri://a");
    let before = config.clone();
    let (config, r) = add(config, stranger(), "", "", "");
    assert_eq!(r, Err(ErrorCode::UnauthorizedAccess));
    assert_eq!(config, before);
}

#[test]
fn add_nft_type_takes_strings_longer_than_the_account_is_sized_for() {
    let name = "n".repeat(33);
    let (config, r) = add(catalog(1), owner(), &name, "TRH", "uri://a");
    assert!(r.is_ok());
    assert_eq!(config.nft_types[0].name, name);
}

#[test]
fn the_catalog_never_holds_more_than_it_has_room_for() {
    let mut config = catalog(3);
    for round in 0..6u8 {
        let name = format!("item{}", round);
        let (next, r) = add(config, owner(), &name, "S", "uri://x");
        assert_eq!(r.is_ok(), round < 3);
        assert!(next.nft_types.len() <= usize::from(next.max_nft_types));
        let (next, _) = set(next, owner(), 0, u64::from(round) + 1);
        assert!(next.nft_types.len() <= usize::from(next.max_nft_types));
        config = next;
    }
    assert_eq!(config.nft_types.len(), 3);
    let (config, r) = grow(config, owner(), 4);
    assert!(r.is_ok());
    let (config, r) = add(config, owner(), "late", "S", "uri://x");
    assert!(r.is_ok());
    assert_eq!(config.nft_types.len(), 4);
    let (config, r) = add(config, owner(), "later", "S", "uri://x");
    assert_eq!(r, Err(ErrorCode::MaxNFTTypesReached));
    assert_eq!(config.nft_types.len(), 4);
}

#[test]
fn set_reward_amount_writes_the_rate_that_is_read() {
    let (config, _) = add(catalog(2), owner(), "Trash", "TRH", "uri://a");
    let (config, _) = add(config, owner(), "Glass", "GLS", "uri://b");
    let (config, r) = set(config, owner(), 1, 100);
    assert_eq!(r, Ok(SetRewardAmountEvent { nft_type_index: 1, reward_amount: 100 }));
    assert_eq!(config.nft_types[1].reward_amount, Some(100));
    assert_eq!(config.nft_types[1].name, "Glass");
    assert_eq!(config.nft_types[1].symbol, "GLS");
    assert_eq!(config.nft_types[1].uri, "uri://b");
    assert_eq!(config.nft_types[0], trash());
    assert_eq!(config.max_nft_types, 2);
    assert_eq!(config.authority, owner());
}

#[test]
fn set_reward_amount_writes_over_a_rate_that_was_set() {
    let (config, _) = add(catalog(1), owner(), "Trash", "TRH", "uri://a");
    let (config, _) = set(config, owner(), 0, 100);
    let (config, r) = set(config, owner(), 0, u64::MAX);
    assert_eq!(r, Ok(SetRewardAmountEvent { nft_type_index: 0, reward_amount: u64::MAX }));
    assert_eq!(config.nft_types[0].reward_amount, Some(u64::MAX));
}

#[test]
fn set_reward_amount_refuses_a_rate_of_zero() {
    let (config, _) = add(catalog(1), owner(), "Trash", "TRH", "uri://a");
    let (config, _) = set(config, owner(), 0, 5);
    let before = config.clone();
    let (config, r) = set(config, owner(), 0, 0);
    assert_eq!(r, Err(ErrorCode::InvalidRewardAmount));
    assert_eq!(config, before);
}

#[test]
fn set_reward_amount_refuses_an_index_past_the_end() {
    let (config, _) = add(catalog(2), owner(), "Trash", "TRH", "uri://a");
    let before = config.clone();
    let (config, r) = set(config, owner(), 1, 5);
    assert_eq!(r, Err(ErrorCode::InvalidNFTType));
    let (config, r2) = set(config, owner(), 255, 5);
    assert_eq!(r2, Err(ErrorCode::InvalidNFTType));
    assert_eq!(config, before);
    let (_, r3) = set(catalog(2), owner(), 0, 5);
    assert_eq!(r3, Err(ErrorCode::InvalidNFTType));
}

#[test]
fn set_reward_amount_looks_at_caller_then_index_then_rate() {
    let (config, _) = add(catalog(1), owner(), "Trash", "TRH", "uri://a");
    let (config, r) = set(config, stranger(), 9, 0);
    assert_eq!(r, Err(ErrorCode::UnauthorizedAccess));
    let (config, r) = set(config, owner(), 9, 0);
    assert_eq!(r, Err(ErrorCode::InvalidNFTType));
    let (_, r) = set(config, owner(), 0, 0);
    assert_eq!(r, Err(ErrorCode::InvalidRewardAmount));
}

#[test]
fn edit_reward_amount_reports_the_rate_before_and_after() {
    let (config, _) = add(catalog(1), owner(), "Trash", "TRH", "uri://a");
    let (config, _) = set(config, owner(), 0, 100);
    let (config, r) = edit(config, owner(), 0, 50);
    assert_eq!(
        r,
        Ok(EditRewardAmountEvent {
            nft_type_index: 0,
            old_reward_amount: 100,
            new_reward_amount: 50,
        })
    );
    assert_eq!(config.nft_types[0].reward_amount, Some(50));
    assert_eq!(config.nft_types[0].name, "Trash");
}

#[test]
fn edit_reward_amount_reports_zero_where_no_rate_was_set() {
    let (config, _) = add(catalog(1), owner(), "Trash", "TRH", "uri://a");
    let (config, r) = edit(config, owner(), 0, 50);
    assert_eq!(
        r,
        Ok(EditRewardAmountEvent { nft_type_index: 0, old_reward_amount: 0, new_reward_amount: 50 })
    );
    assert_eq!(config.nft_types[0].reward_amount, Some(50));
}

#[test]
fn edit_reward_amount_refuses_as_set_reward_amount_does() {
    let (config, _) = add(catalog(1), owner(), "Trash", "TRH", "uri://a");
    let (config, _) = set(config, owner(), 0, 100);
    let before = config.clone();
    let (config, r) = edit(config, stranger(), 0, 50);
    assert_eq!(r, Err(ErrorCode::UnauthorizedAccess));
    let (config, r) = edit(config, owner(), 1, 50);
    assert_eq!(r, Err(ErrorCode::InvalidNFTType));
    let (config, r) = edit(config, owner(), 0, 0);
    assert_eq!(r, Err(ErrorCode::InvalidRewardAmount));
    let (config, r) = edit(config, owner(), 1, 0);
    assert_eq!(r, Err(ErrorCode::InvalidNFTType));
    assert_eq!(config, before);
}

#[test]
fn increase_max_nft_types_gives_more_room() {
    let (config, _) = add(catalog(2), owner(), "Trash", "TRH", "uri://a");
    let (config, r) = grow(config, owner(), 3);
    assert_eq!(r, Ok(IncreaseMaxNFTTypesEvent { authority: owner(), old_max: 2, new_max: 3 }));
    assert_eq!(config, NFTConfig { authority: owner(), max_nft_types: 3, nft_types: vec![trash()] });
}

#[test]
fn increase_max_nft_types_refuses_the_same_room_and_less() {
    for new_max in [0u8, 1, 4, 5] {
        let (config, r) = grow(catalog(5), owner(), new_max);
        assert_eq!(r, Err(ErrorCode::InvalidNewMaxNFTTypes));
        assert_eq!(config, catalog(5));
    }
}

#[test]
fn increase_max_nft_types_may_go_past_ten() {
    let (config, r) = grow(catalog(10), owner(), 11);
    assert!(r.is_ok());
    let (config, r) = grow(config, owner(), 255);
    assert_eq!(r, Ok(IncreaseMaxNFTTypesEvent { authority: owner(), old_max: 11, new_max: 255 }));
    assert_eq!(config.max_nft_types, 255);
    let (config, r) = grow(config, owner(), 255);
    assert_eq!(r, Err(ErrorCode::InvalidNewMaxNFTTypes));
    assert_eq!(config.max_nft_types, 255);
}

#[test]
fn the_room_of_a_catalog_never_shrinks() {
    let mut config = catalog(4);
    let mut room = config.max_nft_types;
    for new_max in [3u8, 6, 6, 2, 9, 8, 10, 1] {
        let (next, r) = grow(config, owner(), new_max);
        assert_eq!(r.is_ok(), new_max > room);
        assert!(next.max_nft_types >= room);
        room = next.max_nft_types;
        config = next;
    }
    assert_eq!(room, 10);
}

#[test]
fn increase_max_nft_types_looks_at_the_caller_first() {
    let (config, r) = grow(catalog(5), stranger(), 5);
    assert_eq!(r, Err(ErrorCode::UnauthorizedAccess));
    let (config, r) = grow(config, stranger(), 6);
    assert_eq!(r, Err(ErrorCode::UnauthorizedAccess));
    assert_eq!(config, catalog(5));
}

#[test]
fn a_stranger_changes_nothing() {
    let (config, _) = add(catalog(3), owner(), "Trash", "TRH", "uri://a");
    let (config, _) = set(config, owner(), 0, 100);
    let before = config.clone();
    let (config, r) = add(config, stranger(), "Glass", "GLS", "uri://b");
    assert_eq!(r, Err(ErrorCode::UnauthorizedAccess));
    let (config, r) = set(config, stranger(), 0, 1);
    assert_eq!(r, Err(ErrorCode::UnauthorizedAccess));
    let (config, r) = edit(config, stranger(), 0, 1);
    assert_eq!(r, Err(ErrorCode::UnauthorizedAccess));
    let (config, r) = grow(config, stranger(), 200);
    assert_eq!(r, Err(ErrorCode::UnauthorizedAccess));
    assert_eq!(config, before);
}

#[test]
fn addresses_that_differ_in_one_byte_are_strangers() {
    for i in [0usize, 15, 31] {
        let mut bytes = owner().bytes;
        bytes[i] ^= 1;
        let other = Address { bytes };
        assert!(!owner().same_as(&other));
        assert!(!other.same_as(&owner()));
        let (_, r) = grow(catalog(5), other, 6);
        assert_eq!(r, Err(ErrorCode::UnauthorizedAccess));
    }
    assert!(owner().same_as(&Address { bytes: [7; 32] }));
}

#[test]
fn require_authority_lets_only_the_owner_pass() {
    let config = catalog(1);
    assert_eq!(config.require_authority(&owner()), Ok(()));
    assert_eq!(config.require_authority(&stranger()), Err(ErrorCode::UnauthorizedAccess));
}

#[test]
fn space_counts_the_bytes_of_the_account() {
    assert_eq!(NFTType::space(), 4 + 32 + 4 + 10 + 4 + 200 + 9);
    assert_eq!(NFTType::space(), 263);
    assert_eq!(NFTConfig::space(), 8 + 32 + 1 + 4 + 10 * 263);
    assert_eq!(NFTConfig::space(), 2675);
}

#[test]
fn the_default_item_type_is_blank() {
    let t = NFTType::default();
    assert_eq!(
        t,
        NFTType {
            name: String::new(),
            symbol: String::new(),
            uri: String::new(),
            reward_amount: None,
        }
    );
}

#[test]
fn every_refusal_has_words_of_its_own() {
    let all = [
        ErrorCode::InvalidNFTType,
        ErrorCode::MaxNFTTypesReached,
        ErrorCode::RewardAmountNotSet,
        ErrorCode::EmptyName,
        ErrorCode::EmptySymbol,
        ErrorCode::EmptyURI,
        ErrorCode::InvalidRewardAmount,
        ErrorCode::InvalidAmount,
        ErrorCode::InvalidMetadata,
        ErrorCode::UnauthorizedAccess,
        ErrorCode::InvalidNewMaxNFTTypes,
        ErrorCode::ArithmeticOverflow,
        ErrorCode::InvalidMaxNFTTypes,
        ErrorCode::UnknownNFTType,
        ErrorCode::InconsistentSettlement,
    ];
    for (i, a) in all.iter().enumerate() {
        assert!(!a.message().is_empty());
        for b in all.iter().skip(i + 1) {
            assert_ne!(a, b);
            assert_ne!(a.message(), b.message());
        }
    }
    assert_eq!(ErrorCode::InvalidNFTType.message(), "Invalid NFT type");
    assert_eq!(ErrorCode::MaxNFTTypesReached.message(), "Maximum number of NFT types reached");
    assert_eq!(
        ErrorCode::InvalidMaxNFTTypes.message(),
        "Invalid maximum number of NFT types (must be between 1 and 10)"
    );
    assert_eq!(
        ErrorCode::InvalidNewMaxNFTTypes.message(),
        "New maximum number of NFT types must be greater than the current maximum"
    );
}

use mythra_program::errors::EventError;
use mythra_program::instructions::close_event::{self, CloseEvent};
use mythra_program::instructions::create_event::{self, CreateEvent};
use mythra_program::instructions::create_ticket_tier::{self, CreateTicketTier};
use mythra_program::instructions::update_event::{self, UpdateEvent, UpdateEventParams};
use mythra_program::instructions::withdraw_funds::{self, WithdrawFunds};
use mythra_program::pubkey::Pubkey;
use mythra_program::state::{Event, Order, TicketTier};

fn key(n: u8) -> Pubkey {
    Pubkey { bytes: [n; 32] }
}

fn blank_event() -> Event {
    Event {
        authority: Pubkey::default(),
        metadata_uri: String::new(),
        start_ts: 0,
        end_ts: 0,
        total_supply: 0,
        allocated_supply: 0,
        treasury: Pubkey::default(),
        platform_split_bps: 0,
        canceled: false,
        crowdfunding_enabled: false,
        campaign: None,
        ticket_revenue: 0,
        bump: 0,
    }
}

fn blank_tier() -> TicketTier {
    TicketTier {
        event: Pubkey::default(),
        price_lamports: 0,
        max_supply: 0,
        current_supply: 0,
        metadata_uri: String::new(),
        royalty_bps: 0,
        resale_enabled: false,
        tier_index: 0,
        bump: 0,
    }
}

fn event(total_supply: u32) -> Event {
    Event {
        authority: key(1),
        metadata_uri: "https://example.org/e.json".to_string(),
        start_ts: 1_000,
        end_ts: 2_000,
        total_supply,
        allocated_supply: 0,
        treasury: key(9),
        platform_split_bps: 250,
        canceled: false,
        crowdfunding_enabled: false,
        campaign: None,
        ticket_revenue: 0,
        bump: 254,
    }
}

fn create_ctx() -> CreateEvent {
    CreateEvent {
        event: blank_event(),
        event_key: key(7),
        organizer: key(1),
        treasury: key(9),
        event_bump: 254,
    }
}

#[test]
fn create_event_fills_the_record() {
    let mut ctx = create_ctx();
    let record = create_event::handler(
        &mut ctx,
        "launch".to_string(),
        "https://example.org/e.json".to_string(),
        1_000,
        2_000,
        100,
        250,
        77,
    )
    .unwrap();
    assert_eq!(record.event_pubkey, key(7));
    assert_eq!(record.authority, key(1));
    assert_eq!(record.metadata_uri, "https://example.org/e.json");
    assert_eq!(record.timestamp, 77);
    let e = &ctx.event;
    assert_eq!(e.authority, key(1));
    assert_eq!(e.metadata_uri, "https://example.org/e.json");
    assert_eq!((e.start_ts, e.end_ts), (1_000, 2_000));
    assert_eq!((e.total_supply, e.allocated_supply), (100, 0));
    assert_eq!(e.treasury, key(9));
    assert_eq!(e.platform_split_bps, 250);
    assert!(!e.canceled);
    assert!(!e.crowdfunding_enabled);
    assert_eq!(e.campaign, None);
    assert_eq!(e.ticket_revenue, 0);
    assert_eq!(e.bump, 254);
}

#[test]
fn create_event_rejects_bad_input_in_order() {
    let long = "x".repeat(201);
    let mut ctx = create_ctx();
    // the URI is looked at first
    let r = create_event::handler(&mut ctx, String::new(), long, 5, 5, 0, 0, 0);
    assert_eq!(r.err(), Some(EventError::MetadataUriTooLong));
    let r = create_event::handler(&mut ctx, String::new(), "x".repeat(200), 5, 5, 0, 0, 0);
    assert_eq!(r.err(), Some(EventError::InvalidTimestamps));
    let r = create_event::handler(&mut ctx, String::new(), String::new(), 6, 5, 1, 0, 0);
    assert_eq!(r.err(), Some(EventError::InvalidTimestamps));
    let r = create_event::handler(&mut ctx, String::new(), String::new(), 4, 5, 0, 10_001, 0);
    assert_eq!(r.err(), Some(EventError::ZeroSupply));
    let r = create_event::handler(&mut ctx, String::new(), String::new(), 4, 5, 1, 10_001, 0);
    assert_eq!(r.err(), Some(EventError::InvalidPlatformSplit));
    let r = create_event::handler(&mut ctx, String::new(), String::new(), 4, 5, 1, u16::MAX, 0);
    assert_eq!(r.err(), Some(EventError::InvalidPlatformSplit));
    // nothing was written
    assert_eq!(ctx.event.total_supply, 0);
    assert_eq!(ctx.event.authority, Pubkey::default());
}

#[test]
fn create_event_takes_the_whole_as_platform_split() {
    let mut ctx = create_ctx();
    let r = create_event::handler(&mut ctx, String::new(), String::new(), 4, 5, 1, 10_000, 0);
    assert!(r.is_ok());
    assert_eq!(ctx.event.platform_split_bps, 10_000);
    let mut ctx = create_ctx();
    let r = create_event::handler(&mut ctx, String::new(), "x".repeat(200), -5, -4, u32::MAX, 0, 0);
    assert!(r.is_ok());
    assert_eq!(ctx.event.platform_split_bps, 0);
}

#[test]
fn uri_length_counts_bytes() {
    // 67 three-byte characters take 201 bytes
    let uri = "\u{20ac}".repeat(67);
    let mut ctx = create_ctx();
    let r = create_event::handler(&mut ctx, String::new(), uri, 1, 2, 1, 0, 0);
    assert_eq!(r.err(), Some(EventError::MetadataUriTooLong));
}

fn tier_ctx(event: Event) -> CreateTicketTier {
    CreateTicketTier {
        tier: blank_tier(),
        tier_key: key(20),
        event,
        event_key: key(7),
        authority: key(1),
        tier_bump: 253,
    }
}

#[test]
fn second_tier_beyond_total_supply_is_refused() {
    let mut ctx = tier_ctx(event(100));
    let record = create_ticket_tier::handler(
        &mut ctx,
        "A".to_string(),
        "uri-a".to_string(),
        1_000_000,
        60,
        500,
        0,
        true,
        5,
    )
    .unwrap();
    assert_eq!(record.max_supply, 60);
    assert_eq!(record.tier_id, "A");
    assert_eq!(record.tier_pubkey, key(20));
    assert_eq!(record.event_pubkey, key(7));
    assert_eq!(record.price_lamports, 1_000_000);
    assert_eq!(record.timestamp, 5);
    assert_eq!(ctx.event.allocated_supply, 60);
    assert_eq!(ctx.tier.event, key(7));
    assert_eq!(ctx.tier.max_supply, 60);
    assert_eq!(ctx.tier.current_supply, 0);
    assert_eq!(ctx.tier.royalty_bps, 500);
    assert!(ctx.tier.resale_enabled);
    assert_eq!(ctx.tier.bump, 253);

    let mut second = tier_ctx(ctx.event.clone());
    second.tier_key = key(21);
    let r = create_ticket_tier::handler(
        &mut second,
        "B".to_string(),
        "uri-b".to_string(),
        1_000_000,
        50,
        0,
        1,
        false,
        6,
    );
    assert_eq!(r.err(), Some(EventError::ExceedsTotalSupply));
    assert_eq!(second.event.allocated_supply, 60);
    assert_eq!(second.tier.max_supply, 0);

    // 40 more fit exactly
    let r = create_ticket_tier::handler(
        &mut second,
        "B".to_string(),
        "uri-b".to_string(),
        1_000_000,
        40,
        0,
        1,
        false,
        6,
    );
    assert!(r.is_ok());
    assert_eq!(second.event.allocated_supply, 100);
}

#[test]
fn create_tier_rejections() {
    let mut ctx = tier_ctx(event(100));
    ctx.authority = key(2);
    let r = create_ticket_tier::handler(&mut ctx, String::new(), String::new(), 1, 1, 0, 0, false, 0);
    assert_eq!(r.err(), Some(EventError::UnauthorizedTierCreation));
    ctx.authority = key(1);
    let r = create_ticket_tier::handler(&mut ctx, String::new(), "u".repeat(201), 1, 1, 0, 0, false, 0);
    assert_eq!(r.err(), Some(EventError::MetadataUriTooLong));
    let r = create_ticket_tier::handler(&mut ctx, String::new(), String::new(), 0, 1, 0, 0, false, 0);
    assert_eq!(r.err(), Some(EventError::InvalidPrice));
    // the sum of supplies does not wrap around
    ctx.event.allocated_supply = 10;
    ctx.event.total_supply = u32::MAX;
    let r = create_ticket_tier::handler(&mut ctx, String::new(), String::new(), 1, u32::MAX, 0, 0, false, 0);
    assert_eq!(r.err(), Some(EventError::ExceedsTotalSupply));
    assert_eq!(ctx.event.allocated_supply, 10);
}

#[test]
fn update_event_changes_only_what_is_named() {
    let mut ctx = UpdateEvent { event: event(100), event_key: key(7), authority: key(1) };
    let record = update_event::handler(
        &mut ctx,
        UpdateEventParams {
            metadata_uri: None,
            end_ts: Some(3_000),
            platform_split_bps: None,
            treasury: Some(key(10)),
        },
        500,
    )
    .unwrap();
    assert_eq!(record.updated_fields, "end_ts, treasury");
    assert_eq!(record.end_ts, 3_000);
    assert_eq!(record.treasury, key(10));
    assert_eq!(record.metadata_uri, "https://example.org/e.json");
    assert_eq!(record.platform_split_bps, 250);
    assert_eq!(record.timestamp, 500);
    assert_eq!(record.event_pubkey, key(7));
    assert_eq!(record.authority, key(1));
    assert_eq!(ctx.event.end_ts, 3_000);
    assert_eq!(ctx.event.treasury, key(10));
    assert_eq!(ctx.event.start_ts, 1_000);

    let record = update_event::handler(
        &mut ctx,
        UpdateEventParams {
            metadata_uri: Some("new".to_string()),
            end_ts: Some(4_000),
            platform_split_bps: Some(10_000),
            treasury: Some(key(11)),
        },
        500,
    )
    .unwrap();
    assert_eq!(record.updated_fields, "metadata_uri, end_ts, platform_split_bps, treasury");
    assert_eq!(ctx.event.metadata_uri, "new");
    assert_eq!(ctx.event.platform_split_bps, 10_000);

    let record = update_event::handler(
        &mut ctx,
        UpdateEventParams { metadata_uri: None, end_ts: None, platform_split_bps: None, treasury: None },
        500,
    )
    .unwrap();
    assert_eq!(record.updated_fields, "");
    assert_eq!(ctx.event.metadata_uri, "new");
}

#[test]
fn update_event_rejections_leave_the_event_alone() {
    let mut ctx = UpdateEvent { event: event(100), event_key: key(7), authority: key(2) };
    let all = |uri: Option<String>, end: Option<i64>, bps: Option<u16>| UpdateEventParams {
        metadata_uri: uri,
        end_ts: end,
        platform_split_bps: bps,
        treasury: Some(Pubkey { bytes: [10; 32] }),
    };
    let r = update_event::handler(&mut ctx, all(None, None, None), 0);
    assert_eq!(r.err(), Some(EventError::UnauthorizedUpdate));
    ctx.authority = key(1);
    let r = update_event::handler(&mut ctx, all(Some("u".repeat(201)), Some(0), Some(10_001)), 0);
    assert_eq!(r.err(), Some(EventError::MetadataUriTooLong));
    let r = update_event::handler(&mut ctx, all(Some("ok".to_string()), Some(500), Some(10_001)), 500);
    assert_eq!(r.err(), Some(EventError::EndTimestampInPast));
    let r = update_event::handler(&mut ctx, all(Some("ok".to_string()), Some(501), Some(10_001)), 500);
    assert_eq!(r.err(), Some(EventError::InvalidPlatformSplit));
    // a new end must also lie after the start, which is at 1000
    let r = update_event::handler(&mut ctx, all(Some("ok".to_string()), Some(1_000), Some(10_000)), 500);
    assert_eq!(r.err(), Some(EventError::InvalidTimestamps));
    let r = update_event::handler(&mut ctx, all(None, Some(900), None), 500);
    assert_eq!(r.err(), Some(EventError::InvalidTimestamps));
    // the split is looked at before that
    let r = update_event::handler(&mut ctx, all(None, Some(900), Some(10_001)), 500);
    assert_eq!(r.err(), Some(EventError::InvalidPlatformSplit));
    assert_eq!(ctx.event.metadata_uri, "https://example.org/e.json");
    assert_eq!(ctx.event.end_ts, 2_000);
    assert_eq!(ctx.event.treasury, key(9));
    assert_eq!(ctx.event.platform_split_bps, 250);
    let r = update_event::handler(&mut ctx, all(None, Some(1_001), None), 500);
    assert!(r.is_ok());
    assert_eq!(ctx.event.end_ts, 1_001);
}

fn withdraw_ctx(escrow_lamports: u64) -> WithdrawFunds {
    WithdrawFunds {
        event: event(100),
        event_key: key(7),
        escrow_key: key(8),
        escrow_lamports,
        treasury: key(9),
        authority: key(1),
    }
}

#[test]
fn withdraw_keeps_the_rent_minimum() {
    let ctx = withdraw_ctx(1_000);
    let record = withdraw_funds::handler(&ctx, 300, 100, 42).unwrap();
    assert_eq!(record.amount, 300);
    assert_eq!(record.remaining_balance, 400);
    assert_eq!(record.event_pubkey, key(7));
    assert_eq!(record.escrow_pubkey, key(8));
    assert_eq!(record.treasury, key(9));
    assert_eq!(record.withdrawn_by, key(1));
    assert_eq!(record.timestamp, 42);
    // everything above the minimum can go
    let record = withdraw_funds::handler(&ctx, 900, 100, 42).unwrap();
    assert_eq!(record.remaining_balance, 0);
    assert_eq!(
        withdraw_funds::handler(&ctx, 901, 100, 42).err(),
        Some(EventError::InsufficientBalance)
    );
    assert_eq!(
        withdraw_funds::handler(&ctx, 0, 1_001, 42).err(),
        Some(EventError::InsufficientBalance)
    );
}

#[test]
fn withdraw_needs_authority_and_treasury() {
    let mut ctx = withdraw_ctx(1_000);
    ctx.authority = key(2);
    assert_eq!(
        withdraw_funds::handler(&ctx, 1, 0, 0).err(),
        Some(EventError::UnauthorizedWithdrawal)
    );
    ctx.authority = key(1);
    ctx.treasury = key(3);
    assert_eq!(
        withdraw_funds::handler(&ctx, 1, 0, 0).err(),
        Some(EventError::UnauthorizedWithdrawal)
    );
}

#[test]
fn close_event_after_the_end_with_empty_escrow() {
    let mut ctx = CloseEvent { event: event(100), event_key: key(7), escrow_lamports: 890_880, authority: key(1) };
    ctx.event.allocated_supply = 60;
    let record = close_event::handler(&ctx, 890_880, 2_000).unwrap();
    assert_eq!(record.event_pubkey, key(7));
    assert_eq!(record.authority, key(1));
    assert_eq!((record.total_supply, record.allocated_supply), (100, 60));
    assert_eq!((record.start_ts, record.end_ts, record.timestamp), (1_000, 2_000, 2_000));

    assert_eq!(close_event::handler(&ctx, 890_880, 1_999).err(), Some(EventError::EventNotEnded));
    assert_eq!(close_event::handler(&ctx, 890_879, 2_000).err(), Some(EventError::OutstandingFunds));
    ctx.authority = key(2);
    assert_eq!(close_event::handler(&ctx, 890_880, 2_000).err(), Some(EventError::UnauthorizedUpdate));
}

#[test]
fn record_sizes() {
    assert_eq!(Event::space(0), 146);
    assert_eq!(Event::space(200), 346);
    assert_eq!(TicketTier::space(10), 75);
    assert_eq!(Order::space(64), 221);
    assert_eq!(Event::MAX_METADATA_URI_LENGTH, 200);
    assert_eq!(TicketTier::MAX_METADATA_URI_LENGTH, 200);
    assert_eq!(Order::MAX_ORDER_ID_LENGTH, 64);
}

#[test]
fn tier_availability() {
    let mut tier = blank_tier();
    tier.max_supply = 2;
    assert!(tier.is_available());
    assert_eq!(tier.remaining(), 2);
    tier.current_supply = 2;
    assert!(!tier.is_available());
    assert_eq!(tier.remaining(), 0);
    tier.current_supply = 3;
    assert_eq!(tier.remaining(), 0);
}

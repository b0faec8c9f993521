use crate::errors::EventError;
use crate::pubkey::Pubkey;
use crate::state::event::{stored_len, Event};
use vstd::prelude::*;

verus! {

/// The accounts that take part in changing an event.
pub struct UpdateEvent {
    pub event: Event,
    pub event_key: Pubkey,
    /// Who asks for the change; must be the authority of the event.
    pub authority: Pubkey,
}

/// The changes asked for. A field that is `None` stays as it is.
pub struct UpdateEventParams {
    pub metadata_uri: Option<String>,
    pub end_ts: Option<i64>,
    pub platform_split_bps: Option<u16>,
    pub treasury: Option<Pubkey>,
}

/// Audit record of a changed event: which fields were named and what the
/// event holds afterwards.
pub struct EventUpdated {
    pub event_pubkey: Pubkey,
    pub authority: Pubkey,
    /// The names of the fields that the change named, in the order of the
    /// record, separated by a comma and a space.
    pub updated_fields: String,
    pub metadata_uri: String,
    pub end_ts: i64,
    pub platform_split_bps: u16,
    pub treasury: Pubkey,
    pub timestamp: i64,
}

/// The names of the fields that a change names, joined by a comma and a
/// space.
pub open spec fn field_names(
    metadata_uri: bool,
    end_ts: bool,
    platform_split_bps: bool,
    treasury: bool,
) -> Seq<char> {
    match (metadata_uri, end_ts, platform_split_bps, treasury) {
        (true, true, true, true) => "metadata_uri, end_ts, platform_split_bps, treasury"@,
        (true, true, true, false) => "metadata_uri, end_ts, platform_split_bps"@,
        (true, true, false, true) => "metadata_uri, end_ts, treasury"@,
        (true, true, false, false) => "metadata_uri, end_ts"@,
        (true, false, true, true) => "metadata_uri, platform_split_bps, treasury"@,
        (true, false, true, false) => "metadata_uri, platform_split_bps"@,
        (true, false, false, true) => "metadata_uri, treasury"@,
        (true, false, false, false) => "metadata_uri"@,
        (false, true, true, true) => "end_ts, platform_split_bps, treasury"@,
        (false, true, true, false) => "end_ts, platform_split_bps"@,
        (false, true, false, true) => "end_ts, treasury"@,
        (false, true, false, false) => "end_ts"@,
        (false, false, true, true) => "platform_split_bps, treasury"@,
        (false, false, true, false) => "platform_split_bps"@,
        (false, false, false, true) => "treasury"@,
        (false, false, false, false) => ""@,
    }
}

/// Why the change is refused, if it is: the first of the checks that fails.
pub open spec fn refusal(ctx: UpdateEvent, params: UpdateEventParams, now: i64) -> Option<
    EventError,
> {
    if ctx.event.authority != ctx.authority {
        Some(EventError::UnauthorizedUpdate)
    } else if params.metadata_uri is Some && stored_len(params.metadata_uri->Some_0@) > 200 {
        Some(EventError::MetadataUriTooLong)
    } else if params.end_ts is Some && !(params.end_ts->Some_0 > now) {
        Some(EventError::EndTimestampInPast)
    } else if params.platform_split_bps is Some && !(params.platform_split_bps->Some_0 <= 10_000) {
        Some(EventError::InvalidPlatformSplit)
    } else if params.end_ts is Some && !(ctx.event.start_ts < params.end_ts->Some_0) {
        Some(EventError::InvalidTimestamps)
    } else {
        None
    }
}

/// The event after the change: each named field takes its new value, all
/// else stays.
pub open spec fn updated_event(event: Event, params: UpdateEventParams) -> Event {
    Event {
        metadata_uri: match params.metadata_uri {
            Some(metadata_uri) => metadata_uri,
            None => event.metadata_uri,
        },
        end_ts: match params.end_ts {
            Some(end_ts) => end_ts,
            None => event.end_ts,
        },
        platform_split_bps: match params.platform_split_bps {
            Some(platform_split_bps) => platform_split_bps,
            None => event.platform_split_bps,
        },
        treasury: match params.treasury {
            Some(treasury) => treasury,
            None => event.treasury,
        },
        ..event
    }
}

fn join_field_names(metadata_uri: bool, end_ts: bool, platform_split_bps: bool, treasury: bool) -> (names:
    String)
    ensures
        names@ == field_names(metadata_uri, end_ts, platform_split_bps, treasury),
{
    match (metadata_uri, end_ts, platform_split_bps, treasury) {
        (true, true, true, true) => "metadata_uri, end_ts, platform_split_bps, treasury".to_string(),
        (true, true, true, false) => "metadata_uri, end_ts, platform_split_bps".to_string(),
        (true, true, false, true) => "metadata_uri, end_ts, treasury".to_string(),
        (true, true, false, false) => "metadata_uri, end_ts".to_string(),
        (true, false, true, true) => "metadata_uri, platform_split_bps, treasury".to_string(),
        (true, false, true, false) => "metadata_uri, platform_split_bps".to_string(),
        (true, false, false, true) => "metadata_uri, treasury".to_string(),
        (true, false, false, false) => "metadata_uri".to_string(),
        (false, true, true, true) => "end_ts, platform_split_bps, treasury".to_string(),
        (false, true, true, false) => "end_ts, platform_split_bps".to_string(),
        (false, true, false, true) => "end_ts, treasury".to_string(),
        (false, true, false, false) => "end_ts".to_string(),
        (false, false, true, true) => "platform_split_bps, treasury".to_string(),
        (false, false, true, false) => "platform_split_bps".to_string(),
        (false, false, false, true) => "treasury".to_string(),
        (false, false, false, false) => "".to_string(),
    }
}

/// Changes the URI, the end, the platform split and the treasury of an
/// event, as far as `params` names them. A new URI takes at most 200 bytes,
/// a new end lies after `now`, the current time, and after the start of the
/// event, and a new split is at most 10000 basis points.
pub fn handler(ctx: &mut UpdateEvent, params: UpdateEventParams, now: i64) -> (result: Result<
    EventUpdated,
    EventError,
>)
    ensures
        match refusal(*old(ctx), params, now) {
            Some(error) => {
                &&& result == Err::<EventUpdated, EventError>(error)
                &&& *final(ctx) == *old(ctx)
            },
            None => {
                &&& result matches Ok(record)
                &&& record.event_pubkey == old(ctx).event_key
                &&& record.authority == old(ctx).event.authority
                &&& record.updated_fields@ == field_names(
                    params.metadata_uri is Some,
                    params.end_ts is Some,
                    params.platform_split_bps is Some,
                    params.treasury is Some,
                )
                &&& record.metadata_uri == final(ctx).event.metadata_uri
                &&& record.end_ts == final(ctx).event.end_ts
                &&& record.platform_split_bps == final(ctx).event.platform_split_bps
                &&& record.treasury == final(ctx).event.treasury
                &&& record.timestamp == now
                &&& *final(ctx) == (UpdateEvent {
                    event: updated_event(old(ctx).event, params),
                    ..*old(ctx)
                })
                &&& old(ctx).event.well_formed() ==> final(ctx).event.well_formed()
            },
        },
        final(ctx).event.ticket_revenue == old(ctx).event.ticket_revenue,
{
    if ctx.event.authority != ctx.authority {
        return Err(EventError::UnauthorizedUpdate);
    }
    if let Some(metadata_uri) = &params.metadata_uri {
        if metadata_uri.as_str().len() > Event::MAX_METADATA_URI_LENGTH {
            return Err(EventError::MetadataUriTooLong);
        }
    }
    if let Some(end_ts) = params.end_ts {
        if !(end_ts > now) {
            return Err(EventError::EndTimestampInPast);
        }
    }
    if let Some(platform_split_bps) = params.platform_split_bps {
        if !(platform_split_bps <= Event::MAX_PLATFORM_SPLIT_BPS) {
            return Err(EventError::InvalidPlatformSplit);
        }
    }
    if let Some(end_ts) = params.end_ts {
        if !(ctx.event.start_ts < end_ts) {
            return Err(EventError::InvalidTimestamps);
        }
    }
    let updated_fields = join_field_names(
        params.metadata_uri.is_some(),
        params.end_ts.is_some(),
        params.platform_split_bps.is_some(),
        params.treasury.is_some(),
    );
    if let Some(metadata_uri) = params.metadata_uri {
        ctx.event.metadata_uri = metadata_uri;
    }
    if let Some(end_ts) = params.end_ts {
        ctx.event.end_ts = end_ts;
    }
    if let Some(platform_split_bps) = params.platform_split_bps {
        ctx.event.platform_split_bps = platform_split_bps;
    }
    if let Some(treasury) = params.treasury {
        ctx.event.treasury = treasury;
    }
    Ok(
        EventUpdated {
            event_pubkey: ctx.event_key,
            authority: ctx.event.authority,
            updated_fields,
            metadata_uri: ctx.event.metadata_uri.clone(),
            end_ts: ctx.event.end_ts,
            platform_split_bps: ctx.event.platform_split_bps,
            treasury: ctx.event.treasury,
            timestamp: now,
        },
    )
}

} // verus!

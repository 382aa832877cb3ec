//! Request paths of the Questrade REST API, and what the client makes of
//! the bodies that come back.

use vstd::prelude::*;
use vstd::string::StringExecFns;
use crate::api_types::{OptionQuoteRequest, OrderStateFilter, SymbolResult, SymbolSearchResponse};
use crate::error::QuestradeError;
use crate::text::{decimal, push_char, push_decimal};

verus! {

/// Most option IDs sent in one option-quote request.
pub const OPTION_QUOTE_BATCH: usize = 100;

/// `s.to_uppercase()`: the string with every character mapped to its
/// Unicode upper case, as `str::to_uppercase` does.
pub uninterp spec fn unicode_uppercase(s: Seq<char>) -> Seq<char>;

/// `str::to_uppercase`: Unicode upper case of `s`; the result is named.
#[verifier::external_body]
pub(crate) fn to_uppercase(s: &str) -> (res: String)
    ensures
        res@ == unicode_uppercase(s@),
{
    s.to_uppercase()
}

/// The full URL of API path `path` on `api_server`: the server, `v1`, then the path.
pub fn api_url(api_server: &str, path: &str) -> (url: String)
    ensures
        url@ == api_server@ + "v1"@ + path@,
{
    let mut url = api_server.to_owned();
    url.append("v1");
    url.append(path);
    url
}

/// `prefix`, the decimal form of `id`, then `suffix`.
pub fn id_path(prefix: &str, id: u64, suffix: &str) -> (path: String)
    ensures
        path@ == prefix@ + decimal(id as nat) + suffix@,
{
    let mut path = prefix.to_owned();
    push_decimal(&mut path, id);
    path.append(suffix);
    path
}

/// `prefix`, `account_id`, then `suffix`.
pub fn account_path(prefix: &str, account_id: &str, suffix: &str) -> (path: String)
    ensures
        path@ == prefix@ + account_id@ + suffix@,
{
    let mut path = prefix.to_owned();
    path.append(account_id);
    path.append(suffix);
    path
}

/// The key a ticker is searched by: its upper case.
pub fn symbol_search_key(ticker: &str) -> (key: String)
    ensures
        key@ == unicode_uppercase(ticker@),
{
    to_uppercase(ticker)
}

/// `GET /v1/symbols/search?prefix=KEY`.
pub fn symbol_search_path(key: &str) -> (path: String)
    ensures
        path@ == "/symbols/search?prefix="@ + key@,
{
    let mut path = "/symbols/search?prefix=".to_owned();
    path.append(key);
    path
}

/// A search result names the ticker `key` is the upper case of.
pub open spec fn symbol_matches(r: SymbolResult, key: Seq<char>) -> bool {
    unicode_uppercase(r.symbol@) == key
}

/// Index of the first search result whose upper-cased symbol equals
/// `key`, found or not.
pub fn first_matching_symbol(symbols: &Vec<SymbolResult>, key: &str) -> (res: Option<usize>)
    ensures
        res matches Some(i) ==> i < symbols.len() && symbol_matches(symbols@[i as int], key@)
            && forall|j: int| 0 <= j < i ==> !symbol_matches(#[trigger] symbols@[j], key@),
        res is None ==> forall|j: int|
            0 <= j < symbols.len() ==> !symbol_matches(#[trigger] symbols@[j], key@),
{
    let key_owned = key.to_owned();
    let mut i: usize = 0;
    while i < symbols.len()
        invariant
            i <= symbols.len(),
            key_owned@ == key@,
            forall|j: int| 0 <= j < i ==> !symbol_matches(#[trigger] symbols@[j], key@),
        decreases symbols.len() - i,
    {
        let upper = to_uppercase(symbols[i].symbol.as_str());
        if upper == key_owned {
            return Some(i);
        }
        i = i + 1;
    }
    None
}

/// The symbol ID that a search for `ticker` resolves to: that of the first
/// result whose symbol equals the ticker without regard to case, or
/// `SymbolNotFound` naming the ticker as given.
pub fn resolve_symbol_id(resp: &SymbolSearchResponse, ticker: &str) -> (res: Result<u64, QuestradeError>)
    ensures
        res matches Ok(id) ==> exists|i: int|
            0 <= i < resp.symbols.len() && symbol_matches(#[trigger] resp.symbols@[i], unicode_uppercase(ticker@))
                && resp.symbols@[i].symbol_id == id
                && forall|j: int| 0 <= j < i ==> !symbol_matches(#[trigger] resp.symbols@[j], unicode_uppercase(ticker@)),
        res is Err ==> forall|j: int|
            0 <= j < resp.symbols.len() ==> !symbol_matches(#[trigger] resp.symbols@[j], unicode_uppercase(ticker@)),
        res matches Err(e) ==> e matches QuestradeError::SymbolNotFound(t) && t@ == ticker@,
{
    let key = symbol_search_key(ticker);
    match first_matching_symbol(&resp.symbols, key.as_str()) {
        Some(i) => Ok(resp.symbols[i].symbol_id),
        None => Err(QuestradeError::SymbolNotFound(ticker.to_owned())),
    }
}

/// The first item of `items`, or `EmptyResponse` with `message` when there is none.
pub fn first_or_empty<T>(items: Vec<T>, message: String) -> (res: Result<T, QuestradeError>)
    ensures
        items.len() > 0 ==> (res matches Ok(x) && x == items@[0]),
        items.len() == 0 ==> (res matches Err(e) && e matches QuestradeError::EmptyResponse(m)
            && m == message),
{
    let mut items = items;
    if items.len() == 0 {
        Err(QuestradeError::EmptyResponse(message))
    } else {
        Ok(items.remove(0))
    }
}

/// The message when a quote request returns no quote.
pub fn no_quote_message() -> (m: String)
    ensures
        m@ == "No quote returned"@,
{
    "No quote returned".to_owned()
}

/// The message when a symbol request for `symbol_id` returns no symbol.
pub fn no_symbol_message(symbol_id: u64) -> (m: String)
    ensures
        m@ == "No symbol returned for id "@ + decimal(symbol_id as nat),
{
    let mut m = "No symbol returned for id ".to_owned();
    push_decimal(&mut m, symbol_id);
    m
}

/// The IDs in base 10, separated by commas.
pub open spec fn joined_ids(ids: Seq<u64>) -> Seq<char>
    decreases ids.len(),
{
    if ids.len() == 0 {
        Seq::empty()
    } else if ids.len() == 1 {
        decimal(ids[0] as nat)
    } else {
        joined_ids(ids.drop_last()) + seq![','] + decimal(ids.last() as nat)
    }
}

/// Appends the IDs in base 10, separated by commas, to `out`.
pub fn push_joined_ids(out: &mut String, ids: &[u64])
    ensures
        final(out)@ == old(out)@ + joined_ids(ids@),
{
    let mut i: usize = 0;
    while i < ids.len()
        invariant
            i <= ids.len(),
            out@ == old(out)@ + joined_ids(ids@.take(i as int)),
        decreases ids.len() - i,
    {
        let ghost before = out@;
        if i > 0 {
            push_char(out, ',');
        }
        push_decimal(out, ids[i]);
        proof {
            let t = ids@.take(i as int + 1);
            assert(t.drop_last() =~= ids@.take(i as int));
            assert(t.last() == ids@[i as int]);
            if i == 0 {
                assert(ids@.take(0) =~= Seq::<u64>::empty());
                assert(out@ =~= old(out)@ + joined_ids(t));
            } else {
                assert(out@ =~= old(out)@ + joined_ids(t));
            }
        }
        i = i + 1;
    }
    assert(ids@.take(ids.len() as int) =~= ids@);
}

/// `prefix` and then the IDs joined by commas; `None` for no IDs, where no
/// request is to be made at all.
pub fn ids_query_path(prefix: &str, ids: &[u64]) -> (path: Option<String>)
    ensures
        ids.len() == 0 ==> path is None,
        ids.len() > 0 ==> (path matches Some(p) && p@ == prefix@ + joined_ids(ids@)),
{
    if ids.len() == 0 {
        return None;
    }
    let mut path = prefix.to_owned();
    push_joined_ids(&mut path, ids);
    Some(path)
}

/// `GET /v1/markets/quotes?ids=...` for several symbols; `None` for none.
pub fn quotes_batch_path(symbol_ids: &[u64]) -> (path: Option<String>)
    ensures
        symbol_ids.len() == 0 ==> path is None,
        symbol_ids.len() > 0 ==> (path matches Some(p) && p@ == "/markets/quotes?ids="@ + joined_ids(symbol_ids@)),
{
    ids_query_path("/markets/quotes?ids=", symbol_ids)
}

/// `GET /v1/symbols?ids=...` for several symbols; `None` for none.
pub fn symbols_batch_path(symbol_ids: &[u64]) -> (path: Option<String>)
    ensures
        symbol_ids.len() == 0 ==> path is None,
        symbol_ids.len() > 0 ==> (path matches Some(p) && p@ == "/symbols?ids="@ + joined_ids(symbol_ids@)),
{
    ids_query_path("/symbols?ids=", symbol_ids)
}

/// `GET /v1/markets/quotes/:id`.
pub fn quote_path(symbol_id: u64) -> (path: String)
    ensures
        path@ == "/markets/quotes/"@ + decimal(symbol_id as nat) + ""@,
{
    id_path("/markets/quotes/", symbol_id, "")
}

/// `GET /v1/symbols/:id`.
pub fn symbol_path(symbol_id: u64) -> (path: String)
    ensures
        path@ == "/symbols/"@ + decimal(symbol_id as nat) + ""@,
{
    id_path("/symbols/", symbol_id, "")
}

/// `GET /v1/symbols/:id/options`.
pub fn option_chain_path(symbol_id: u64) -> (path: String)
    ensures
        path@ == "/symbols/"@ + decimal(symbol_id as nat) + "/options"@,
{
    id_path("/symbols/", symbol_id, "/options")
}

/// `GET /v1/markets/candles/:id?startTime=..&endTime=..&interval=..`.
pub fn candles_path(symbol_id: u64, start: &str, end: &str, interval: &str) -> (path: String)
    ensures
        path@ == "/markets/candles/"@ + decimal(symbol_id as nat) + "?startTime="@ + start@
            + "&endTime="@ + end@ + "&interval="@ + interval@,
{
    let mut path = id_path("/markets/candles/", symbol_id, "?startTime=");
    path.append(start);
    path.append("&endTime=");
    path.append(end);
    path.append("&interval=");
    path.append(interval);
    path
}

/// `GET /v1/accounts/:id/positions`.
pub fn positions_path(account_id: &str) -> (path: String)
    ensures
        path@ == "/accounts/"@ + account_id@ + "/positions"@,
{
    account_path("/accounts/", account_id, "/positions")
}

/// `GET /v1/accounts/:id/balances`.
pub fn balances_path(account_id: &str) -> (path: String)
    ensures
        path@ == "/accounts/"@ + account_id@ + "/balances"@,
{
    account_path("/accounts/", account_id, "/balances")
}

/// `GET /v1/accounts/:id/activities?startTime=..&endTime=..`.
pub fn activities_path(account_id: &str, start: &str, end: &str) -> (path: String)
    ensures
        path@ == "/accounts/"@ + account_id@ + "/activities?startTime="@ + start@ + "&endTime="@
            + end@,
{
    let mut path = account_path("/accounts/", account_id, "/activities?startTime=");
    path.append(start);
    path.append("&endTime=");
    path.append(end);
    path
}

/// `GET /v1/accounts/:id/executions?startTime=..&endTime=..`.
pub fn executions_path(account_id: &str, start: &str, end: &str) -> (path: String)
    ensures
        path@ == "/accounts/"@ + account_id@ + "/executions?startTime="@ + start@ + "&endTime="@
            + end@,
{
    let mut path = account_path("/accounts/", account_id, "/executions?startTime=");
    path.append(start);
    path.append("&endTime=");
    path.append(end);
    path
}

/// `GET /v1/accounts/:id/orders?startTime=..&endTime=..&stateFilter=..`.
pub fn orders_path(account_id: &str, start: &str, end: &str, state_filter: OrderStateFilter) -> (path: String)
    ensures
        path@ == "/accounts/"@ + account_id@ + "/orders?startTime="@ + start@ + "&endTime="@ + end@
            + "&stateFilter="@ + state_filter.name_spec(),
{
    let mut path = account_path("/accounts/", account_id, "/orders?startTime=");
    path.append(start);
    path.append("&endTime=");
    path.append(end);
    path.append("&stateFilter=");
    path.append(state_filter.as_str());
    path
}

/// The IDs cut into consecutive batches of `n`, the last one possibly shorter.
pub open spec fn batches(ids: Seq<u64>, n: int) -> Seq<Seq<u64>>
    decreases ids.len(),
{
    if ids.len() == 0 || n <= 0 {
        Seq::empty()
    } else if ids.len() <= n {
        seq![ids]
    } else {
        seq![ids.take(n)] + batches(ids.skip(n), n)
    }
}

/// The option-quote requests that ask for `ids`, at most 100 IDs each, in order.
pub fn option_quote_requests(ids: &[u64]) -> (reqs: Vec<OptionQuoteRequest>)
    ensures
        reqs@.map_values(|r: OptionQuoteRequest| r.option_ids@) == batches(ids@, OPTION_QUOTE_BATCH as int),
{
    let mut reqs: Vec<OptionQuoteRequest> = Vec::new();
    let mut start: usize = 0;
    assert(ids@.skip(0) =~= ids@);
    assert(reqs@.map_values(|r: OptionQuoteRequest| r.option_ids@) =~= Seq::<Seq<u64>>::empty());
    assert(Seq::<Seq<u64>>::empty() + batches(ids@, OPTION_QUOTE_BATCH as int) =~= batches(ids@, OPTION_QUOTE_BATCH as int));
    while start < ids.len()
        invariant
            start <= ids.len(),
            reqs@.map_values(|r: OptionQuoteRequest| r.option_ids@) + batches(ids@.skip(start as int), OPTION_QUOTE_BATCH as int)
                == batches(ids@, OPTION_QUOTE_BATCH as int),
        decreases ids.len() - start,
    {
        let stop = if ids.len() - start > OPTION_QUOTE_BATCH {
            start + OPTION_QUOTE_BATCH
        } else {
            ids.len()
        };
        let mut chunk: Vec<u64> = Vec::new();
        let mut k: usize = start;
        while k < stop
            invariant
                start <= k <= stop <= ids.len(),
                chunk@ == ids@.subrange(start as int, k as int),
            decreases stop - k,
        {
            chunk.push(ids[k]);
            k = k + 1;
            assert(chunk@ =~= ids@.subrange(start as int, k as int));
        }
        let ghost before = reqs@.map_values(|r: OptionQuoteRequest| r.option_ids@);
        let ghost rest = ids@.skip(start as int);
        reqs.push(OptionQuoteRequest { option_ids: chunk });
        proof {
            let n = OPTION_QUOTE_BATCH as int;
            assert(reqs@.map_values(|r: OptionQuoteRequest| r.option_ids@) =~= before + seq![ids@.subrange(start as int, stop as int)]);
            if rest.len() <= n {
                assert(stop == ids.len());
                assert(rest =~= ids@.subrange(start as int, stop as int));
                assert(ids@.skip(stop as int) =~= Seq::<u64>::empty());
                assert(batches(ids@.skip(stop as int), n) =~= Seq::<Seq<u64>>::empty());
            } else {
                assert(rest.take(n) =~= ids@.subrange(start as int, stop as int));
                assert(rest.skip(n) =~= ids@.skip(stop as int));
            }
            assert(before + batches(rest, n) =~= before + seq![ids@.subrange(start as int, stop as int)] + batches(ids@.skip(stop as int), n));
        }
        start = stop;
    }
    assert(ids@.skip(ids.len() as int) =~= Seq::<u64>::empty());
    assert(batches(ids@.skip(ids.len() as int), OPTION_QUOTE_BATCH as int) =~= Seq::<Seq<u64>>::empty());
    assert(reqs@.map_values(|r: OptionQuoteRequest| r.option_ids@) + Seq::<Seq<u64>>::empty() =~= reqs@.map_values(|r: OptionQuoteRequest| r.option_ids@));
    reqs
}

/// The batches laid end to end.
pub open spec fn concat_batches(bs: Seq<Seq<u64>>) -> Seq<u64>
    decreases bs.len(),
{
    if bs.len() == 0 {
        Seq::empty()
    } else {
        bs[0] + concat_batches(bs.drop_first())
    }
}

/// The batches hand every ID on exactly once and in order, and each holds
/// between 1 and `n` IDs.
pub proof fn lemma_batches_partition(ids: Seq<u64>, n: int)
    requires
        n > 0,
    ensures
        concat_batches(batches(ids, n)) == ids,
        forall|i: int| 0 <= i < batches(ids, n).len() ==> 1 <= #[trigger] batches(ids, n)[i].len() <= n,
    decreases ids.len(),
{
    if ids.len() == 0 {
        assert(ids =~= Seq::<u64>::empty());
    } else if ids.len() <= n {
        let all = batches(ids, n);
        assert(all =~= seq![ids]);
        assert(all.drop_first() =~= Seq::<Seq<u64>>::empty());
        assert(concat_batches(all) == all[0] + concat_batches(all.drop_first()));
        assert(ids + Seq::<u64>::empty() =~= ids);
    } else {
        let rest = batches(ids.skip(n), n);
        lemma_batches_partition(ids.skip(n), n);
        let all = batches(ids, n);
        assert(all == seq![ids.take(n)] + rest);
        assert(all.drop_first() =~= rest);
        assert(concat_batches(all) == all[0] + concat_batches(all.drop_first()));
        assert(ids.take(n) + ids.skip(n) =~= ids);
        assert forall|i: int| 0 <= i < all.len() implies 1 <= #[trigger] all[i].len() <= n by {
            if i > 0 {
                assert(all[i] == rest[i - 1]);
            }
        }
    }
}

} // verus!

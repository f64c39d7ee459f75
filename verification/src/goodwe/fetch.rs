//! The charging log of a month, page by page.
use vstd::prelude::*;

use crate::calendar;
use crate::calendar::{CalendarError, MonthWindow};
use crate::clock;
use crate::crypto;
use crate::goodwe::record;
use crate::goodwe::record::{Record, RecordModel};
use crate::goodwe::request;
use crate::goodwe::request::{PortalRequest, Reply, ReplyModel, RequestModel, CODE_OK};
use crate::goodwe::token::TokenData;
use crate::json;
use crate::json::{Json, JsonModel, NumberModel};
use crate::text;

verus! {

/// Where the charging log is asked for.
pub const CHARGE_LOG_URL: &'static str =
    "https://eu-gateway.semsportal.com/web/sems/sems-plant/api/v1/chargePile/queryChargeLogList";

/// The sentinel that an expired session is known by.
pub const SESSION_EXPIRED: &'static str = "SESSION_EXPIRED";

/// Why a fetch failed.
#[derive(Debug)]
pub enum FetchError {
    Calendar(CalendarError),
    RequestFailed(String),
    UnreadableReply(String),
    SessionExpired,
    Rejected { code: String, description: String },
    MissingDataList,
}

/// What a [`FetchError`] says.
pub enum FetchFailure {
    Calendar(CalendarError),
    RequestFailed(Seq<char>),
    UnreadableReply(Seq<char>),
    SessionExpired,
    Rejected { code: Seq<char>, description: Seq<char> },
    MissingDataList,
}

impl View for FetchError {
    type V = FetchFailure;

    open spec fn view(&self) -> FetchFailure {
        match *self {
            FetchError::Calendar(e) => FetchFailure::Calendar(e),
            FetchError::RequestFailed(cause) => FetchFailure::RequestFailed(cause@),
            FetchError::UnreadableReply(cause) => FetchFailure::UnreadableReply(cause@),
            FetchError::SessionExpired => FetchFailure::SessionExpired,
            FetchError::Rejected { code, description } => FetchFailure::Rejected {
                code: code@,
                description: description@,
            },
            FetchError::MissingDataList => FetchFailure::MissingDataList,
        }
    }
}

impl FetchFailure {
    /// The message that tells of the failure, with its cause.
    pub open spec fn message(self) -> Seq<char> {
        match self {
            FetchFailure::Calendar(CalendarError::InvalidYearMonth) => "Invalid year/month"@,
            FetchFailure::Calendar(CalendarError::DateArithmetic) => "Date arithmetic error"@,
            FetchFailure::RequestFailed(cause) => "Charge log request failed: "@ + cause,
            FetchFailure::UnreadableReply(cause) => "Failed to parse charge log response: "@
                + cause,
            FetchFailure::SessionExpired => SESSION_EXPIRED@,
            FetchFailure::Rejected { code, description } => "API error ("@ + code + "): "@
                + description,
            FetchFailure::MissingDataList => "API response missing 'dataList'"@,
        }
    }
}

/// The sentinel is the message of an expired session and of no other failure.
pub proof fn sentinel_means_expired(e: FetchFailure)
    ensures
        e.message() == SESSION_EXPIRED@ <==> e is SessionExpired,
{
    reveal_strlit("SESSION_EXPIRED");
    reveal_strlit("Invalid year/month");
    reveal_strlit("Date arithmetic error");
    reveal_strlit("Charge log request failed: ");
    reveal_strlit("Failed to parse charge log response: ");
    reveal_strlit("API error (");
    reveal_strlit("API response missing 'dataList'");
    assert(SESSION_EXPIRED@[0] == 'S');
    if !(e is SessionExpired) {
        assert(e.message()[0] != 'S');
    }
}

impl FetchError {
    /// The message that tells of the failure, with its cause.
    pub fn message(&self) -> (m: String)
        ensures
            m@ == self@.message(),
    {
        match self {
            FetchError::Calendar(CalendarError::InvalidYearMonth) => {
                "Invalid year/month".to_owned()
            },
            FetchError::Calendar(CalendarError::DateArithmetic) => {
                "Date arithmetic error".to_owned()
            },
            FetchError::RequestFailed(cause) => "Charge log request failed: ".to_owned().concat(
                cause.as_str(),
            ),
            FetchError::UnreadableReply(
                cause,
            ) => "Failed to parse charge log response: ".to_owned().concat(cause.as_str()),
            FetchError::SessionExpired => SESSION_EXPIRED.to_owned(),
            FetchError::Rejected { code, description } => "API error (".to_owned().concat(
                code.as_str(),
            ).concat("): ").concat(description.as_str()),
            FetchError::MissingDataList => "API response missing 'dataList'".to_owned(),
        }
    }
}

/// The records of a month with their totals.
#[derive(Debug)]
pub struct FetchResult<Q> {
    pub records: Vec<Record<Q>>,
    pub total_green_kwh: Q,
    pub total_import_kwh: Q,
}

/// The codes with which the portal says that the session is over.
pub open spec fn is_expiry_code(code: Seq<char>) -> bool {
    code == "C0602"@ || code == "C0607"@
}

/// How many entries a page of the log holds at most.
pub const PAGE_SIZE: u64 = 100;

/// A fetch in progress: what is asked for, what came so far, and the page that
/// comes next.
#[derive(Debug)]
pub struct FetchRun {
    device_sn: String,
    window: MonthWindow,
    records: Vec<Record<String>>,
    page: u64,
}

/// What a fetch in progress is.
pub struct FetchModel {
    pub device_sn: Seq<char>,
    pub start_time: Seq<char>,
    pub end_time: Seq<char>,
    pub records: Seq<RecordModel>,
    pub page: int,
}

impl View for FetchRun {
    type V = FetchModel;

    closed spec fn view(&self) -> FetchModel {
        FetchModel {
            device_sn: self.device_sn@,
            start_time: self.window.start_time@,
            end_time: self.window.end_time@,
            records: record::record_models(self.records@),
            page: self.page as int,
        }
    }
}

impl FetchModel {
    /// Sessions are numbered from one on, and every page before the next one
    /// brought at least one of them.
    pub open spec fn well_formed(self) -> bool {
        &&& 1 <= self.page <= self.records.len() + 1
        &&& forall|i: int|
            0 <= i < self.records.len() ==> #[trigger] self.records[i].session == i + 1
    }

    /// The document that asks for the next page.
    pub open spec fn body(self) -> JsonModel {
        JsonModel::Object(
            map![
                "sn"@ => JsonModel::Text(self.device_sn),
                "startTime"@ => JsonModel::Text(self.start_time),
                "endTime"@ => JsonModel::Text(self.end_time),
                "pageNum"@ => JsonModel::Number(NumberModel::PosInt(self.page as u64)),
                "pageSize"@ => JsonModel::Number(NumberModel::PosInt(PAGE_SIZE)),
            ],
        )
    }

    /// The request for the next page, made with a token at `ts` milliseconds.
    pub open spec fn request(
        self,
        token: TokenData,
        token_json: Seq<char>,
        ts: u64,
    ) -> RequestModel {
        RequestModel {
            url: CHARGE_LOG_URL@,
            headers: request::headers_of(token_json, token.uid@, token.token@, token.language@, ts),
            body: self.body(),
        }
    }

    /// The fetch after a page brought these records.
    pub open spec fn with(self, records: Seq<RecordModel>, page: int) -> FetchModel {
        FetchModel { records, page, ..self }
    }
}

/// What a page does to a fetch.
pub enum Verdict {
    /// The fetch goes on with the next page.
    NextPage(FetchModel),
    /// The fetch has all there is.
    Complete(FetchModel),
    /// The fetch failed.
    Failed(FetchFailure),
}

/// The entries that a reply brings.
pub open spec fn entries_of(reply: ReplyModel) -> Seq<JsonModel> {
    match reply {
        ReplyModel::Document(v) => match v.field("data"@).field("dataList"@) {
            JsonModel::Array(entries) => entries,
            _ => Seq::empty(),
        },
        _ => Seq::empty(),
    }
}

/// The number of entries that a reply claims the log has.
pub open spec fn total_of(reply: ReplyModel) -> u64 {
    match reply {
        ReplyModel::Document(v) => v.field("data"@).field("total"@).unsigned_or_zero(),
        _ => 0,
    }
}

/// Why a reply is no page of the log, if it is none.
pub open spec fn page_failure(reply: ReplyModel) -> Option<FetchFailure> {
    match reply {
        ReplyModel::SendFailed(cause) => Some(FetchFailure::RequestFailed(cause)),
        ReplyModel::Unreadable(cause) => Some(FetchFailure::UnreadableReply(cause)),
        ReplyModel::Document(v) => {
            let code = v.field("code"@).text_or(""@);
            if is_expiry_code(code) {
                Some(FetchFailure::SessionExpired)
            } else if code != CODE_OK@ {
                Some(
                    FetchFailure::Rejected {
                        code,
                        description: v.field("description"@).text_or("unknown"@),
                    },
                )
            } else if !(v.field("data"@).field("dataList"@) is Array) {
                Some(FetchFailure::MissingDataList)
            } else {
                None
            }
        },
    }
}

/// What a reply does to a fetch. A page without entries ends it, and so does a page
/// with which there are as many records as the log claims to have.
pub open spec fn verdict(run: FetchModel, reply: ReplyModel) -> Verdict {
    match page_failure(reply) {
        Some(e) => Verdict::Failed(e),
        None => {
            let records = run.records + record::numbered(
                run.records.len() as int,
                entries_of(reply),
            );
            if entries_of(reply).len() == 0 || records.len() >= total_of(reply) {
                Verdict::Complete(run.with(records, run.page))
            } else {
                Verdict::NextPage(run.with(records, run.page + 1))
            }
        },
    }
}

/// Whether a fetch goes on.
#[derive(Clone, Copy, Debug, PartialEq, Eq, Structural)]
pub enum Progress {
    NextPage,
    Complete,
}

/// The fetch of a month before its first page.
pub open spec fn fresh_run(
    device_sn: Seq<char>,
    start_time: Seq<char>,
    end_time: Seq<char>,
) -> FetchModel {
    FetchModel { device_sn, start_time, end_time, records: Seq::empty(), page: 1 }
}

impl FetchRun {
    /// Starts to fetch the records of a month.
    pub fn start(year: i32, month: u32, device_sn: &str) -> (run: Result<FetchRun, FetchError>)
        requires
            year < i32::MAX,
            month < u32::MAX,
        ensures
            match calendar::last_day_of(year as int, month as int) {
                Ok(d) => run is Ok && run->Ok_0@ == fresh_run(
                    device_sn@,
                    calendar::month_start(year as int, month as nat),
                    calendar::month_end(year as int, month as nat, d as nat),
                ) && run->Ok_0@.well_formed(),
                Err(e) => run is Err && run->Err_0@ == FetchFailure::Calendar(e),
            },
            run matches Ok(r) ==> {
                &&& r@.device_sn == device_sn@
                &&& r@.page == 1
                &&& r@.records.len() == 0
            },
    {
        match calendar::month_window(year, month) {
            Ok(window) => {
                let run = FetchRun {
                    device_sn: device_sn.to_owned(),
                    window,
                    records: Vec::new(),
                    page: 1,
                };
                assert(run@.records =~= Seq::empty());
                Ok(run)
            },
            Err(e) => Err(FetchError::Calendar(e)),
        }
    }

    /// The request for the next page, made at `ts` milliseconds.
    pub fn request_at(&self, token: &TokenData, token_json: &str, ts: u64) -> (request:
        PortalRequest)
        ensures
            request@ == self@.request(*token, token_json@, ts),
            request@.body.field("pageNum"@).unsigned_or_zero() == self@.page,
            request@.body.field("pageSize"@).unsigned_or_zero() == PAGE_SIZE,
            request::carries(request@.headers, "token"@, token_json@),
    {
        let mut fields: Vec<(String, Json)> = Vec::new();
        json::set_text(&mut fields, "sn", self.device_sn.as_str());
        json::set_text(&mut fields, "startTime", self.window.start_time.as_str());
        json::set_text(&mut fields, "endTime", self.window.end_time.as_str());
        json::set_unsigned(&mut fields, "pageNum", self.page);
        json::set_unsigned(&mut fields, "pageSize", PAGE_SIZE);
        let body = Json::Object(fields);
        assert(body@ == self@.body());
        proof {
            page_request_names_its_page(self@, "sn"@);
            page_request_carries_the_session(self@, *token, token_json@, ts);
        }
        PortalRequest {
            url: CHARGE_LOG_URL,
            headers: request::headers_at(
                token_json,
                token.uid.as_str(),
                token.token.as_str(),
                token.language.as_str(),
                ts,
            ),
            body,
        }
    }

    /// The request for the next page, made now.
    pub fn request(&self, token: &TokenData, token_json: &str) -> (request: PortalRequest)
        ensures
            exists|ts: u64|
                clock::is_clock_timestamp(ts) && request@ == #[trigger] self@.request(
                    *token,
                    token_json@,
                    ts,
                ),
            request@.url == CHARGE_LOG_URL@,
            request@.body == self@.body(),
            request::carries(request@.headers, "token"@, token_json@),
    {
        self.request_at(token, token_json, clock::now_ms())
    }

    /// How many records came so far.
    pub fn len(&self) -> (n: usize)
        ensures
            n == self@.records.len(),
    {
        self.records.len()
    }

    /// The page that comes next.
    pub fn page(&self) -> (n: u64)
        ensures
            n == self@.page,
    {
        self.page
    }

    /// Whether the entries of a reply can be counted on from the records so far.
    pub fn fits(&self, reply: &Reply) -> (b: bool)
        ensures
            b == (self@.records.len() + entries_of(reply@).len() <= usize::MAX),
    {
        let entries = match reply {
            Reply::Document(v) => match v.field("data").field("dataList") {
                Json::Array(entries) => {
                    proof {
                        json::lemma_item_models(entries@);
                    }
                    entries.len()
                },
                _ => 0,
            },
            _ => 0,
        };
        assert(entries == entries_of(reply@).len());
        entries <= usize::MAX - self.records.len()
    }

    /// Takes what came back for the next page. A failure leaves the fetch as it was.
    pub fn advance(&mut self, reply: &Reply) -> (progress: Result<Progress, FetchError>)
        requires
            old(self)@.well_formed(),
            old(self)@.records.len() + entries_of(reply@).len() <= usize::MAX,
        ensures
            final(self)@.well_formed(),
            progress is Ok ==> final(self)@.records == old(self)@.records + record::numbered(
                old(self)@.records.len() as int,
                entries_of(reply@),
            ),
            progress is Ok <==> page_failure(reply@) is None,
            match verdict(old(self)@, reply@) {
                Verdict::NextPage(run) => progress == Ok::<_, FetchError>(Progress::NextPage)
                    && final(self)@ == run,
                Verdict::Complete(run) => progress == Ok::<_, FetchError>(Progress::Complete)
                    && final(self)@ == run,
                Verdict::Failed(e) => progress is Err && progress->Err_0@ == e && final(self)@
                    == old(self)@,
            },
    {
        let v = match reply {
            Reply::SendFailed(cause) => return Err(FetchError::RequestFailed(cause.clone())),
            Reply::Unreadable(cause) => return Err(FetchError::UnreadableReply(cause.clone())),
            Reply::Document(v) => v,
        };
        let code = v.field("code").text_or("");
        if text::same_text(code, "C0602") || text::same_text(code, "C0607") {
            return Err(FetchError::SessionExpired);
        }
        if !text::same_text(code, CODE_OK) {
            return Err(
                FetchError::Rejected {
                    code: code.to_owned(),
                    description: v.field("description").text_or("unknown").to_owned(),
                },
            );
        }
        let data = v.field("data");
        let entries = match data.field("dataList") {
            Json::Array(entries) => entries,
            _ => return Err(FetchError::MissingDataList),
        };
        let ghost models = json::item_models(entries@);
        assert(models == entries_of(reply@));
        proof {
            json::lemma_item_models(entries@);
        }
        let ghost before = self@.records;
        if entries.len() == 0 {
            assert(before + record::numbered(before.len() as int, models) =~= before);
            return Ok(Progress::Complete);
        }
        let mut i: usize = 0;
        while i < entries.len()
            invariant
                i <= entries@.len(),
                models.len() == entries@.len(),
                forall|j: int|
                    0 <= j < entries@.len() ==> #[trigger] models[j] == json::model(entries@[j]),
                before.len() + entries@.len() <= usize::MAX,
                self@ == old(self)@.with(
                    before + record::numbered(before.len() as int, models).take(i as int),
                    old(self)@.page,
                ),
            decreases entries@.len() - i,
        {
            assert(self@.records.len() == before.len() + i);
            assert(self@.records.len() == self.records@.len());
            let session = self.records.len() + 1;
            let ghost so_far = self@.records;
            self.records.push(record::read_record(session, &entries[i]));
            assert(self@.records =~= so_far.push(
                record::record_of(before.len() + i + 1, models[i as int]),
            ));
            assert(self@.records =~= before + record::numbered(before.len() as int, models).take(
                i + 1,
            ));
            i += 1;
        }
        assert(record::numbered(before.len() as int, models).take(i as int) =~= record::numbered(
            before.len() as int,
            models,
        ));
        let total = data.field("total").unsigned_or_zero();
        if self.records.len() as u64 >= total {
            return Ok(Progress::Complete);
        }
        self.page += 1;
        Ok(Progress::NextPage)
    }

    /// Ends the fetch with the records that came.
    pub fn into_records(self) -> (records: Vec<Record<String>>)
        ensures
            record::record_models(records@) == self@.records,
    {
        self.records
    }
}

/// What a row of replies, page after page, does to a fetch. What comes after its
/// end changes nothing.
pub open spec fn run_over(run: FetchModel, replies: Seq<ReplyModel>) -> Verdict
    decreases replies.len(),
{
    if replies.len() == 0 {
        Verdict::NextPage(run)
    } else {
        match run_over(run, replies.drop_last()) {
            Verdict::NextPage(so_far) => verdict(so_far, replies.last()),
            ended => ended,
        }
    }
}

/// The entries of a row of replies, one page after the other.
pub open spec fn all_entries(replies: Seq<ReplyModel>) -> Seq<JsonModel>
    decreases replies.len(),
{
    if replies.len() == 0 {
        Seq::empty()
    } else {
        all_entries(replies.drop_last()) + entries_of(replies.last())
    }
}

/// A fetch that still runs has one record for every entry of every page so far, in
/// their order and numbered from one on, and asks for the page after them.
pub proof fn running_fetch_has_every_entry(run: FetchModel, replies: Seq<ReplyModel>)
    requires
        run.records.len() == 0,
        run.page == 1,
        run_over(run, replies) is NextPage,
    ensures
        run_over(run, replies) == Verdict::NextPage(
            run.with(record::numbered(0, all_entries(replies)), replies.len() as int + 1),
        ),
    decreases replies.len(),
{
    if replies.len() == 0 {
        assert(run.records =~= record::numbered(0, all_entries(replies)));
    } else {
        running_fetch_has_every_entry(run, replies.drop_last());
        lemma_numbered_goes_on(all_entries(replies.drop_last()), entries_of(replies.last()));
    }
}

/// A fetch that a page completes has one record for every entry of every page, in
/// their order and numbered from one on.
pub proof fn complete_fetch_has_every_entry(run: FetchModel, replies: Seq<ReplyModel>)
    requires
        run.records.len() == 0,
        run.page == 1,
        replies.len() > 0,
        run_over(run, replies.drop_last()) is NextPage,
        run_over(run, replies) is Complete,
    ensures
        run_over(run, replies) == Verdict::Complete(
            run.with(record::numbered(0, all_entries(replies)), replies.len() as int),
        ),
        entries_of(replies.last()).len() == 0 || all_entries(replies).len() >= total_of(
            replies.last(),
        ),
{
    running_fetch_has_every_entry(run, replies.drop_last());
    lemma_numbered_goes_on(all_entries(replies.drop_last()), entries_of(replies.last()));
}

proof fn lemma_numbered_goes_on(before: Seq<JsonModel>, page: Seq<JsonModel>)
    ensures
        record::numbered(0, before) + record::numbered(before.len() as int, page)
            == record::numbered(0, before + page),
{
    assert(record::numbered(0, before) + record::numbered(before.len() as int, page)
        =~= record::numbered(0, before + page));
}

/// However its replies turn out, a fetch keeps its sessions numbered from one on
/// and asks for no page unless every page before it brought a record.
pub proof fn fetch_stays_well_formed(run: FetchModel, replies: Seq<ReplyModel>)
    requires
        run.well_formed(),
    ensures
        match run_over(run, replies) {
            Verdict::NextPage(m) => m.well_formed(),
            Verdict::Complete(m) => m.well_formed(),
            Verdict::Failed(_) => true,
        },
    decreases replies.len(),
{
    if replies.len() > 0 {
        fetch_stays_well_formed(run, replies.drop_last());
    }
}

/// A fetch asks about the same device and month from its first page to its last.
pub proof fn fetch_keeps_its_question(run: FetchModel, replies: Seq<ReplyModel>)
    ensures
        match run_over(run, replies) {
            Verdict::NextPage(m) => m == run.with(m.records, m.page),
            Verdict::Complete(m) => m == run.with(m.records, m.page),
            Verdict::Failed(_) => true,
        },
    decreases replies.len(),
{
    if replies.len() > 0 {
        fetch_keeps_its_question(run, replies.drop_last());
    }
}

/// A fetch that still runs fails at the next reply exactly where that reply is no
/// page of the log, and with that reply's failure.
pub proof fn fetch_fails_with_its_reply(
    run: FetchModel,
    replies: Seq<ReplyModel>,
    e: FetchFailure,
)
    requires
        replies.len() > 0,
        run_over(run, replies.drop_last()) is NextPage,
    ensures
        run_over(run, replies) == Verdict::Failed(e) <==> page_failure(replies.last()) == Some(e),
{
}

/// Nothing that comes after the end of a fetch changes how it ended.
pub proof fn ended_fetch_stays_ended(
    run: FetchModel,
    replies: Seq<ReplyModel>,
    more: Seq<ReplyModel>,
)
    requires
        !(run_over(run, replies) is NextPage),
    ensures
        run_over(run, replies + more) == run_over(run, replies),
    decreases more.len(),
{
    if more.len() == 0 {
        assert(replies + more =~= replies);
    } else {
        ended_fetch_stays_ended(run, replies, more.drop_last());
        assert((replies + more).drop_last() =~= replies + more.drop_last());
    }
}

/// A fetch that still runs has fewer records than its last page claims the log has,
/// and the page that it asks for next is no later than that claim: it ends after at
/// most as many pages as the log claims entries.
pub proof fn pages_are_bounded_by_total(run: FetchModel, replies: Seq<ReplyModel>)
    requires
        run.records.len() == 0,
        run.page == 1,
        replies.len() > 0,
    ensures
        run_over(run, replies) matches Verdict::NextPage(m) ==> {
            &&& m.records.len() < total_of(replies.last())
            &&& m.page <= total_of(replies.last())
        },
{
    assert(run.well_formed());
    fetch_stays_well_formed(run, replies);
}

/// A fetch ends as expired exactly where the portal answers with one of the two
/// codes that say so.
pub proof fn expiry_is_told_by_code(run: FetchModel, reply: ReplyModel)
    ensures
        verdict(run, reply) == Verdict::Failed(FetchFailure::SessionExpired) <==> (reply
            matches ReplyModel::Document(v) && is_expiry_code(v.field("code"@).text_or(""@))),
{
}

proof fn lemma_body_keys_differ()
    ensures
        "sn"@.len() == 2,
        "startTime"@.len() == 9,
        "endTime"@.len() == 7,
        "pageNum"@.len() == 7,
        "endTime"@ != "pageNum"@,
        "pageSize"@.len() == 8,
{
    reveal_strlit("sn");
    reveal_strlit("startTime");
    reveal_strlit("endTime");
    reveal_strlit("pageNum");
    reveal_strlit("pageSize");
    assert("endTime"@[0] == 'e' && "pageNum"@[0] == 'p');
}

/// Whatever page it asks for, a fetch names its device and the two ends of its window as
/// they are, the page by its number, and a hundred entries as the size of a page; it
/// asks for nothing else.
pub proof fn page_request_names_its_page(run: FetchModel, key: Seq<char>)
    requires
        0 <= run.page <= u64::MAX,
    ensures
        run.body().field("sn"@) == JsonModel::Text(run.device_sn),
        run.body().field("startTime"@) == JsonModel::Text(run.start_time),
        run.body().field("endTime"@) == JsonModel::Text(run.end_time),
        run.body().field("pageNum"@) matches JsonModel::Number(NumberModel::PosInt(n)) && n
            == run.page,
        run.body().field("pageSize"@) == JsonModel::Number(NumberModel::PosInt(100)),
        key != "sn"@ && key != "startTime"@ && key != "endTime"@ && key != "pageNum"@ && key
            != "pageSize"@ ==> run.body().field(key) == JsonModel::Null,
{
    lemma_body_keys_differ();
}

/// The requests for two pages of one fetch differ in the number of the page alone.
pub proof fn page_requests_differ_in_page_only(
    run: FetchModel,
    records: Seq<RecordModel>,
    page: u64,
)
    ensures
        run.body() matches JsonModel::Object(fields) && run.with(records, page as int).body()
            == JsonModel::Object(
            fields.insert("pageNum"@, JsonModel::Number(NumberModel::PosInt(page))),
        ),
{
    lemma_body_keys_differ();
    let fields = run.body()->Object_0;
    let other = run.with(records, page as int).body()->Object_0;
    assert(other =~= fields.insert("pageNum"@, JsonModel::Number(NumberModel::PosInt(page))));
}

/// Where in the log the page begins that a request asks for: after all the entries of
/// the pages before it.
pub open spec fn first_entry_asked(body: JsonModel) -> int {
    (body.field("pageNum"@).unsigned_or_zero() - 1) * body.field("pageSize"@).unsigned_or_zero()
}

/// A fetch asks for the entries of the log without gap or overlap: the first page begins
/// with the first entry, and every page begins where the page before it ends.
pub proof fn pages_tile_the_log(run: FetchModel, records: Seq<RecordModel>)
    requires
        1 <= run.page < u64::MAX,
    ensures
        run.page == 1 ==> first_entry_asked(run.body()) == 0,
        first_entry_asked(run.with(records, run.page + 1).body()) == first_entry_asked(run.body())
            + run.body().field("pageSize"@).unsigned_or_zero(),
        run.body().field("pageSize"@).unsigned_or_zero() == 100,
{
    page_request_names_its_page(run, "sn"@);
    page_request_names_its_page(run.with(records, run.page + 1), "sn"@);
    assert(first_entry_asked(run.body()) == (run.page - 1) * 100);
    assert(first_entry_asked(run.with(records, run.page + 1).body()) == run.page * 100);
}

/// The request for a page goes to the charging log, carries the token text and the
/// language of the session, and is signed for its user, token and time. What it asks
/// for depends on none of these.
pub proof fn page_request_carries_the_session(
    run: FetchModel,
    token: TokenData,
    token_json: Seq<char>,
    ts: u64,
)
    ensures
        ({
            let r = run.request(token, token_json, ts);
            &&& r.url
                == "https://eu-gateway.semsportal.com/web/sems/sems-plant/api/v1/chargePile/queryChargeLogList"@
            &&& r.headers.len() == 9
            &&& request::carries(r.headers, "token"@, token_json)
            &&& request::carries(r.headers, "currentlang"@, token.language@)
            &&& request::carries(
                r.headers,
                "x-signature"@,
                crypto::signature(token.uid@, token.token@, ts as nat),
            )
            &&& request::carries(r.headers, "content-type"@, "application/json"@)
            &&& request::carries(r.headers, "origin"@, "https://semsplus.goodwe.com"@)
            &&& r.headers == request::headers_of(
                token_json,
                token.uid@,
                token.token@,
                token.language@,
                ts,
            )
            &&& r.body == run.body()
        }),
{
    request::headers_carry_what_is_given(token_json, token.uid@, token.token@, token.language@, ts);
    request::headers_are_those_of_the_page(
        token_json,
        token.uid@,
        token.token@,
        token.language@,
        ts,
    );
}

/// A fetch of a real month begins with its first page, has no records yet, and asks for
/// the time from the first second of the month to the last second of its last day.
pub proof fn fetch_begins_with_its_month(device_sn: Seq<char>, year: int, month: int)
    requires
        1 <= month <= 12,
        calendar::last_day_of(year, month) is Ok,
    ensures
        ({
            let last_day = calendar::last_day_of(year, month)->Ok_0 as nat;
            let run = fresh_run(
                device_sn,
                calendar::month_start(year, month as nat),
                calendar::month_end(year, month as nat, last_day),
            );
            let start = run.body().field("startTime"@)->Text_0;
            let end = run.body().field("endTime"@)->Text_0;
            let n = end.len() as int;
            let day = text::digits_value(end.subrange(n - 11, n - 9)) as int;
            &&& run.records.len() == 0
            &&& run.body().field("sn"@) == JsonModel::Text(device_sn)
            &&& run.body().field("pageNum"@) == JsonModel::Number(NumberModel::PosInt(1))
            &&& run.body().field("startTime"@) is Text
            &&& run.body().field("endTime"@) is Text
            &&& start.len() == n
            &&& text::integer_value(start.take(n - 15)) == Some(year)
            &&& text::integer_value(end.take(n - 15)) == Some(year)
            &&& text::digits_value(start.subrange(n - 14, n - 12)) == month
            &&& text::digits_value(end.subrange(n - 14, n - 12)) == month
            &&& start.skip(n - 12) == "-01 00:00:00"@
            &&& end.skip(n - 9) == " 23:59:59"@
            &&& month < 12 ==> calendar::day_number(year, month, day) + 1 == calendar::day_number(
                year,
                month + 1,
                1,
            )
            &&& month == 12 ==> calendar::day_number(year, month, day) + 1 == calendar::day_number(
                year + 1,
                1,
                1,
            )
        }),
{
    let last_day = calendar::last_day_of(year, month)->Ok_0 as nat;
    let run = fresh_run(
        device_sn,
        calendar::month_start(year, month as nat),
        calendar::month_end(year, month as nat, last_day),
    );
    calendar::window_spans_its_month(year, month);
    page_request_names_its_page(run, "sn"@);
}

/// A page of the log adds one record for each of its entries, in their order and
/// numbered on from those that came before, which stay as they were. The fetch goes on
/// to the next page exactly where the page had entries and the log claims more of them
/// than came so far, and it goes on asking about the same device and window.
pub proof fn page_adds_its_entries(run: FetchModel, v: JsonModel, entries: Seq<JsonModel>)
    requires
        v.field("code"@) == JsonModel::Text("00000"@),
        v.field("data"@).field("dataList"@) == JsonModel::Array(entries),
    ensures
        ({
            let before = run.records.len() as int;
            let total = v.field("data"@).field("total"@).unsigned_or_zero();
            let goes_on = entries.len() > 0 && before + entries.len() < total;
            let outcome = verdict(run, ReplyModel::Document(v));
            let after = if goes_on { outcome->NextPage_0 } else { outcome->Complete_0 };
            &&& goes_on <==> outcome is NextPage
            &&& !goes_on <==> outcome is Complete
            &&& after.page == run.page + (if goes_on { 1int } else { 0int })
            &&& after.device_sn == run.device_sn
            &&& after.start_time == run.start_time
            &&& after.end_time == run.end_time
            &&& after.records.len() == before + entries.len()
            &&& after.records.take(before) == run.records
            &&& forall|i: int|
                0 <= i < entries.len() ==> after.records[before + i] == record::record_of(
                    before + i + 1,
                    #[trigger] entries[i],
                )
        }),
{
    reveal_strlit("00000");
    reveal_strlit("C0602");
    reveal_strlit("C0607");
    assert("00000"@[0] == '0' && "C0602"@[0] == 'C' && "C0607"@[0] == 'C');
    let reply = ReplyModel::Document(v);
    assert(page_failure(reply) is None);
    assert(entries_of(reply) == entries);
    let before = run.records.len() as int;
    assert((run.records + record::numbered(before, entries)).take(before) =~= run.records);
}

/// The session is over exactly where the portal answers with one of two codes, whatever
/// else is in the answer and whatever came before.
pub proof fn two_codes_end_the_session(run: FetchModel, v: JsonModel)
    ensures
        verdict(run, ReplyModel::Document(v)) == Verdict::Failed(FetchFailure::SessionExpired)
            <==> v.field("code"@) == JsonModel::Text("C0602"@) || v.field("code"@)
            == JsonModel::Text("C0607"@),
{
    reveal_strlit("");
    reveal_strlit("C0602");
    reveal_strlit("C0607");
    assert(""@.len() == 0 && "C0602"@.len() == 5 && "C0607"@.len() == 5);
}

/// Any other code than that of success is a refusal, which names the code and the
/// description, unknown where there is none.
pub proof fn refused_page_tells_why(
    run: FetchModel,
    v: JsonModel,
    code: Seq<char>,
    description: Seq<char>,
)
    requires
        code != "00000"@,
        code != "C0602"@,
        code != "C0607"@,
    ensures
        v.field("code"@) == JsonModel::Text(code) && v.field("description"@) == JsonModel::Text(
            description,
        ) ==> verdict(run, ReplyModel::Document(v)) == Verdict::Failed(
            FetchFailure::Rejected { code, description },
        ),
        v.field("code"@) == JsonModel::Text(code) && !(v.field("description"@) is Text) ==> verdict(
            run,
            ReplyModel::Document(v),
        ) == Verdict::Failed(FetchFailure::Rejected { code, description: "unknown"@ }),
        !(v.field("code"@) is Text) && v.field("description"@) == JsonModel::Text(description)
            ==> verdict(run, ReplyModel::Document(v)) == Verdict::Failed(
            FetchFailure::Rejected { code: Seq::empty(), description },
        ),
        !(v.field("code"@) is Text) && !(v.field("description"@) is Text) ==> verdict(
            run,
            ReplyModel::Document(v),
        ) == Verdict::Failed(
            FetchFailure::Rejected { code: Seq::empty(), description: "unknown"@ },
        ),
{
    reveal_strlit("");
    reveal_strlit("00000");
    reveal_strlit("C0602");
    reveal_strlit("C0607");
    assert(""@ =~= Seq::<char>::empty());
    assert("00000"@.len() == 5 && "C0602"@.len() == 5 && "C0607"@.len() == 5);
}

/// A page that got no answer, or one that is no document, fails with the cause of that,
/// and one that was granted without a list of entries fails for want of it.
pub proof fn page_without_entries_list_fails(run: FetchModel, cause: Seq<char>, v: JsonModel)
    ensures
        verdict(run, ReplyModel::SendFailed(cause)) == Verdict::Failed(
            FetchFailure::RequestFailed(cause),
        ),
        verdict(run, ReplyModel::Unreadable(cause)) == Verdict::Failed(
            FetchFailure::UnreadableReply(cause),
        ),
        v.field("code"@) == JsonModel::Text("00000"@) && !(v.field("data"@).field("dataList"@)
            is Array) ==> verdict(run, ReplyModel::Document(v)) == Verdict::Failed(
            FetchFailure::MissingDataList,
        ),
{
    reveal_strlit("00000");
    reveal_strlit("C0602");
    reveal_strlit("C0607");
    assert("00000"@[0] == '0' && "C0602"@[0] == 'C' && "C0607"@[0] == 'C');
}

/// The message of a failed fetch ends with the cause, all of it, behind words that tell
/// what failed; that of a refusal holds the code and the description.
pub proof fn fetch_messages_tell_the_cause(cause: Seq<char>, code: Seq<char>)
    ensures
        FetchFailure::RequestFailed(cause).message().take(27) == "Charge log request failed: "@,
        FetchFailure::RequestFailed(cause).message().skip(27) == cause,
        FetchFailure::UnreadableReply(cause).message().take(37)
            == "Failed to parse charge log response: "@,
        FetchFailure::UnreadableReply(cause).message().skip(37) == cause,
        ({
            let m = FetchFailure::Rejected { code, description: cause }.message();
            let n = 11 + code.len() as int;
            &&& m.take(11) == "API error ("@
            &&& m.subrange(11, n) == code
            &&& m.subrange(n, n + 3) == "): "@
            &&& m.skip(n + 3) == cause
        }),
        FetchFailure::MissingDataList.message() == "API response missing 'dataList'"@,
        FetchFailure::SessionExpired.message() == "SESSION_EXPIRED"@,
        FetchFailure::Calendar(CalendarError::InvalidYearMonth).message() == "Invalid year/month"@,
        FetchFailure::Calendar(CalendarError::DateArithmetic).message()
            == "Date arithmetic error"@,
{
    reveal_strlit("Charge log request failed: ");
    reveal_strlit("Failed to parse charge log response: ");
    reveal_strlit("API error (");
    reveal_strlit("): ");
    assert(FetchFailure::RequestFailed(cause).message().take(27)
        =~= "Charge log request failed: "@);
    assert(FetchFailure::RequestFailed(cause).message().skip(27) =~= cause);
    assert(FetchFailure::UnreadableReply(cause).message().take(37)
        =~= "Failed to parse charge log response: "@);
    assert(FetchFailure::UnreadableReply(cause).message().skip(37) =~= cause);
    let m = FetchFailure::Rejected { code, description: cause }.message();
    let n = 11 + code.len() as int;
    assert(m.take(11) =~= "API error ("@);
    assert(m.subrange(11, n) =~= code);
    assert(m.subrange(n, n + 3) =~= "): "@);
    assert(m.skip(n + 3) =~= cause);
}

/// A failed fetch is seen as what it says, with its cause, its code and its description.
pub proof fn fetch_errors_are_seen_as_they_are(cause: String, code: String, e: CalendarError)
    ensures
        FetchError::Calendar(e)@ == FetchFailure::Calendar(e),
        FetchError::RequestFailed(cause)@ == FetchFailure::RequestFailed(cause@),
        FetchError::UnreadableReply(cause)@ == FetchFailure::UnreadableReply(cause@),
        FetchError::SessionExpired@ == FetchFailure::SessionExpired,
        (FetchError::Rejected { code, description: cause })@ == (FetchFailure::Rejected {
            code: code@,
            description: cause@,
        }),
        FetchError::MissingDataList@ == FetchFailure::MissingDataList,
{
}

} // verus!

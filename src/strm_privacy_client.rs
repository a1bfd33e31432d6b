use vstd::prelude::*;
use crate::auth_service::{AuthBodyStyle, AuthService};
use crate::error::Error;
use crate::sender_service::{AvroValue, avro_encodable, DeliveryRequest, SenderService};
use crate::tokens::{RefreshResponse, Token, bearer_of, refreshed_access, refreshed_refresh};

verus! {

pub const AUTH_URL: &'static str = "https://accounts.strmprivacy.io/auth/realms/streams/protocol/openid-connect/token";

pub const API_URL: &'static str = "https://events.strmprivacy.io/event";

/// The most send attempts that one delivery makes.
pub const MAX_RETRIES: usize = 3;

/// The status code that makes a delivery refresh its token and send again.
pub const UNAUTHORIZED: u16 = 401;

/// An HTTP status code.
pub type StrmStatusCode = u16;

/// The status code and body of the delivery endpoint's last answer.
pub type StrmPrivacyResponse = (StrmStatusCode, String);

/// Whether the answer `status` to the send with index `attempt` (counted from 0) is
/// followed by a refresh and another send.
pub open spec fn should_refresh(attempt: nat, status: u16) -> bool {
    status == UNAUTHORIZED && attempt + 1 < MAX_RETRIES
}

/// The number of sends and the number of refreshes that a delivery makes from the send
/// with index `attempt` on, when the endpoint answers its sends with `statuses` in turn
/// and every refresh succeeds.
pub open spec fn delivery_counts(attempt: nat, statuses: Seq<u16>) -> (nat, nat)
    decreases statuses.len(),
{
    if statuses.len() == 0 {
        (0, 0)
    } else if should_refresh(attempt, statuses[0]) {
        let rest = delivery_counts(attempt + 1, statuses.drop_first());
        (rest.0 + 1, rest.1 + 1)
    } else {
        (1, 0)
    }
}

/// The progress of one delivery: how many sends it has made.
pub struct Delivery {
    pub attempts: usize,
}

/// What a delivery does after the endpoint has answered a send.
pub enum DeliveryAction {
    /// Refresh the token pair, then send again.
    Refresh,
    /// Stop and hand this answer to the caller.
    Finish(StrmPrivacyResponse),
}

impl Delivery {
    /// A delivery that has made no send yet.
    pub fn new() -> (r: Self)
        ensures
            r.attempts == 0,
    {
        Delivery { attempts: 0 }
    }

    /// Takes in the endpoint's answer to the latest send and decides what comes next:
    /// a 401 is followed by a refresh unless the send was the last one permitted;
    /// any other answer, and a 401 to the last send, ends the delivery with that answer.
    pub fn on_response(&mut self, status: StrmStatusCode, body: String) -> (r: DeliveryAction)
        requires
            old(self).attempts < MAX_RETRIES,
        ensures
            final(self).attempts == old(self).attempts + 1,
            should_refresh(old(self).attempts as nat, status) ==> r is Refresh,
            !should_refresh(old(self).attempts as nat, status) ==> (r matches DeliveryAction::Finish(
                resp,
            ) && resp.0 == status && resp.1@ == body@),
            r is Refresh ==> final(self).attempts < MAX_RETRIES,
    {
        self.attempts = self.attempts + 1;
        if status == UNAUTHORIZED && self.attempts < MAX_RETRIES {
            DeliveryAction::Refresh
        } else {
            DeliveryAction::Finish((status, body))
        }
    }
}

/// A client that holds a live token pair and delivers events with it.
pub struct StrmPrivacyClient {
    pub sender_service: SenderService,
    pub auth_service: AuthService,
}

impl StrmPrivacyClient {
    /// A client never exists without a token pair.
    pub open spec fn wf(&self) -> bool {
        self.auth_service.token is Some
    }

    /// The client for the given endpoints, made from the identity endpoint's answer to
    /// an authentication request in the style `body_style`; a failed authentication
    /// gives no client.
    pub fn new_with_body_style(
        client_id: String,
        client_secret: String,
        auth_url: &'static str,
        api_url: &'static str,
        body_style: AuthBodyStyle,
        authenticated: Result<Token, Error>,
    ) -> (r: Result<Self, Error>)
        ensures
            match authenticated {
                Ok(t) => r matches Ok(c) && {
                    &&& c.wf()
                    &&& c.auth_service.token == Some(t)
                    &&& c.auth_service.client_id@ == client_id@
                    &&& c.auth_service.client_secret@ == client_secret@
                    &&& c.auth_service.auth_url@ == auth_url@
                    &&& c.auth_service.body_style == body_style
                    &&& c.sender_service.api_url@ == api_url@
                },
                Err(e) => r == Err::<Self, Error>(e),
            },
    {
        let mut auth_service = AuthService::new(client_id, client_secret, auth_url).with_body_style(
            body_style,
        );
        let sender_service = SenderService::new(api_url);
        match auth_service.authenticate(authenticated) {
            Ok(()) => Ok(StrmPrivacyClient { sender_service, auth_service }),
            Err(e) => Err(e),
        }
    }

    /// As `new_with_body_style`, with form-encoded credentials.
    pub fn new(
        client_id: String,
        client_secret: String,
        auth_url: &'static str,
        api_url: &'static str,
        authenticated: Result<Token, Error>,
    ) -> (r: Result<Self, Error>)
        ensures
            match authenticated {
                Ok(t) => r matches Ok(c) && {
                    &&& c.wf()
                    &&& c.auth_service.token == Some(t)
                    &&& c.auth_service.client_id@ == client_id@
                    &&& c.auth_service.client_secret@ == client_secret@
                    &&& c.auth_service.auth_url@ == auth_url@
                    &&& c.auth_service.body_style == AuthBodyStyle::Form
                    &&& c.sender_service.api_url@ == api_url@
                },
                Err(e) => r == Err::<Self, Error>(e),
            },
    {
        StrmPrivacyClient::new_with_body_style(
            client_id,
            client_secret,
            auth_url,
            api_url,
            AuthBodyStyle::Form,
            authenticated,
        )
    }

    /// As `new`, for the production endpoints `AUTH_URL` and `API_URL`.
    pub fn default(client_id: String, client_secret: String, authenticated: Result<Token, Error>) -> (r:
        Result<Self, Error>)
        ensures
            match authenticated {
                Ok(t) => r matches Ok(c) && {
                    &&& c.wf()
                    &&& c.auth_service.token == Some(t)
                    &&& c.auth_service.client_id@ == client_id@
                    &&& c.auth_service.client_secret@ == client_secret@
                    &&& c.auth_service.auth_url@ == AUTH_URL@
                    &&& c.auth_service.body_style == AuthBodyStyle::Form
                    &&& c.sender_service.api_url@ == API_URL@
                },
                Err(e) => r == Err::<Self, Error>(e),
            },
    {
        StrmPrivacyClient::new(client_id, client_secret, AUTH_URL, API_URL, authenticated)
    }

    /// The request for one send of a delivery: `value` encoded under `schema`, presented
    /// with the current access value.
    pub fn send_request(&self, schema_ref: &str, schema: &str, value: &AvroValue) -> (r:
        Result<DeliveryRequest, Error>)
        requires
            self.wf(),
        ensures
            r is Ok <==> avro_encodable(schema@, *value),
            r matches Ok(req) ==> {
                &&& req.url@ == self.sender_service.api_url@
                &&& req.authorization@ == bearer_of(self.auth_service.token.unwrap().access_token@)
                &&& req.schema_ref@ == schema_ref@
            },
            r matches Err(e) ==> e is Encoding,
    {
        let token = self.auth_service.token.as_ref().unwrap();
        self.sender_service.send_event(token, schema_ref, schema, value)
    }

    /// Takes in the identity endpoint's answer to a refresh: on success the current pair
    /// takes it in, on failure the pair stays as it was and the error is passed on.
    pub fn refresh(&mut self, response: Result<RefreshResponse, Error>) -> (r: Result<(), Error>)
        requires
            old(self).wf(),
        ensures
            final(self).wf(),
            final(self).sender_service == old(self).sender_service,
            final(self).auth_service.client_id == old(self).auth_service.client_id,
            final(self).auth_service.client_secret == old(self).auth_service.client_secret,
            final(self).auth_service.auth_url == old(self).auth_service.auth_url,
            final(self).auth_service.body_style == old(self).auth_service.body_style,
            match response {
                Ok(resp) => {
                    &&& r is Ok
                    &&& final(self).auth_service.token.unwrap().access_token@ == refreshed_access(
                        resp,
                    )
                    &&& final(self).auth_service.token.unwrap().refresh_token@
                        == refreshed_refresh(old(self).auth_service.token.unwrap().refresh_token@, resp)
                },
                Err(e) => r == Err::<(), Error>(e) && final(self).auth_service.token
                    == old(self).auth_service.token,
            },
    {
        self.auth_service.refresh(response)
    }
}

/// Runs the decisions of one delivery over the answers `statuses`, every refresh
/// succeeding, and returns the number of sends, the number of refreshes and the
/// answer that the delivery ends with.
pub fn replay(statuses: &Vec<StrmStatusCode>) -> (r: (usize, usize, StrmStatusCode))
    requires
        statuses.len() >= MAX_RETRIES,
    ensures
        (r.0 as nat, r.1 as nat) == delivery_counts(0, statuses@),
        1 <= r.0 <= MAX_RETRIES,
        r.2 == statuses[r.0 - 1],
{
    let mut delivery = Delivery::new();
    let mut refreshes: usize = 0;
    assert(statuses@.skip(0) =~= statuses@);
    loop
        invariant
            statuses.len() >= MAX_RETRIES,
            delivery.attempts < MAX_RETRIES,
            refreshes == delivery.attempts,
            delivery_counts(0, statuses@) == ({
                let rest = delivery_counts(delivery.attempts as nat, statuses@.skip(delivery.attempts as int));
                ((delivery.attempts + rest.0) as nat, (refreshes + rest.1) as nat)
            }),
        decreases MAX_RETRIES - delivery.attempts,
    {
        let at = delivery.attempts;
        let status = statuses[at];
        proof {
            let rest = statuses@.skip(at as int);
            assert(rest[0] == status);
            assert(rest.drop_first() =~= statuses@.skip(at + 1));
        }
        match delivery.on_response(status, String::new()) {
            DeliveryAction::Refresh => {
                refreshes = refreshes + 1;
            },
            DeliveryAction::Finish(outcome) => {
                return (delivery.attempts, refreshes, outcome.0);
            },
        }
    }
}

/// When the endpoint answers every send with 401, a delivery makes exactly
/// `MAX_RETRIES` sends and `MAX_RETRIES - 1` refreshes: the last 401 is not
/// followed by a refresh.
pub proof fn lemma_always_unauthorized(statuses: Seq<u16>)
    requires
        statuses.len() >= MAX_RETRIES,
        forall|i: int| 0 <= i < statuses.len() ==> statuses[i] == UNAUTHORIZED,
    ensures
        delivery_counts(0, statuses) == (MAX_RETRIES as nat, (MAX_RETRIES - 1) as nat),
{
    let s1 = statuses.drop_first();
    let s2 = s1.drop_first();
    assert(s1[0] == statuses[1]);
    assert(s2[0] == statuses[2]);
    assert(delivery_counts(2, s2) == (1nat, 0nat));
    assert(delivery_counts(1, s1) == (2nat, 1nat));
}

/// When the endpoint's first answer is not 401, a delivery makes one send and no refresh.
pub proof fn lemma_early_success(statuses: Seq<u16>)
    requires
        statuses.len() >= 1,
        statuses[0] != UNAUTHORIZED,
    ensures
        delivery_counts(0, statuses) == (1nat, 0nat),
{
}

/// Whatever the endpoint answers to each send, a delivery from the send with index
/// `attempt` on makes at most `MAX_RETRIES - attempt` sends, and one refresh fewer
/// than it makes sends.
pub proof fn lemma_bounded_delivery(attempt: nat, statuses: Seq<u16>)
    requires
        attempt < MAX_RETRIES,
        statuses.len() >= MAX_RETRIES - attempt,
    ensures
        1 <= delivery_counts(attempt, statuses).0 <= MAX_RETRIES - attempt,
        delivery_counts(attempt, statuses).1 + 1 == delivery_counts(attempt, statuses).0,
    decreases statuses.len(),
{
    if should_refresh(attempt, statuses[0]) {
        lemma_bounded_delivery(attempt + 1, statuses.drop_first());
    }
}

} // verus!

//! The chat message that reports a billing summary, and how it is delivered.

use crate::amount::amount_text;
use crate::bigquery::{
    is_descending, BillingData, BillingDataView, BillingSummary, BillingSummaryView,
};
use crate::config::{DiscordSettings, DiscordSettingsView};
use crate::text::{
    contains, contains_text, decimal, decimal_text, occurs_at, optional_text, signed_decimal,
    signed_decimal_text, starts_with, starts_with_text,
};
use vstd::prelude::*;
use vstd::string::*;

verus! {

/// How many services a message lists at most.
pub const MAX_FIELDS: usize = 10;

/// The colour of the message's side bar.
pub const EMBED_COLOR: u32 = 4886754;

/// One labelled value of a message.
#[derive(Debug, PartialEq, Eq)]
pub struct DiscordEmbedField {
    pub name: String,
    pub value: String,
    pub inline: bool,
}

/// The small print under a message.
#[derive(Debug, PartialEq, Eq)]
pub struct DiscordEmbedFooter {
    pub text: String,
}

/// A rich message.
#[derive(Debug, PartialEq, Eq)]
pub struct DiscordEmbed {
    pub title: String,
    pub description: Option<String>,
    pub color: u32,
    pub fields: Vec<DiscordEmbedField>,
    pub footer: Option<DiscordEmbedFooter>,
}

/// What is posted to the webhook.
#[derive(Debug, PartialEq, Eq)]
pub struct DiscordWebhookPayload {
    pub username: Option<String>,
    pub avatar_url: Option<String>,
    pub content: Option<String>,
    pub embeds: Vec<DiscordEmbed>,
}

/// A `DiscordEmbedField` as mathematics.
pub struct DiscordEmbedFieldView {
    pub name: Seq<char>,
    pub value: Seq<char>,
    pub inline: bool,
}

/// A `DiscordEmbedFooter` as mathematics.
pub struct DiscordEmbedFooterView {
    pub text: Seq<char>,
}

/// A `DiscordEmbed` as mathematics.
pub struct DiscordEmbedView {
    pub title: Seq<char>,
    pub description: Option<Seq<char>>,
    pub color: u32,
    pub fields: Seq<DiscordEmbedFieldView>,
    pub footer: Option<DiscordEmbedFooterView>,
}

/// A `DiscordWebhookPayload` as mathematics.
pub struct DiscordWebhookPayloadView {
    pub username: Option<Seq<char>>,
    pub avatar_url: Option<Seq<char>>,
    pub content: Option<Seq<char>>,
    pub embeds: Seq<DiscordEmbedView>,
}

impl View for DiscordEmbedField {
    type V = DiscordEmbedFieldView;

    open spec fn view(&self) -> DiscordEmbedFieldView {
        DiscordEmbedFieldView { name: self.name@, value: self.value@, inline: self.inline }
    }
}

impl View for DiscordEmbedFooter {
    type V = DiscordEmbedFooterView;

    open spec fn view(&self) -> DiscordEmbedFooterView {
        DiscordEmbedFooterView { text: self.text@ }
    }
}

impl View for DiscordEmbed {
    type V = DiscordEmbedView;

    open spec fn view(&self) -> DiscordEmbedView {
        DiscordEmbedView {
            title: self.title@,
            description: optional_text(self.description),
            color: self.color,
            fields: self.fields@.map_values(|f: DiscordEmbedField| f@),
            footer: match self.footer {
                Some(footer) => Some(footer@),
                None => None,
            },
        }
    }
}

impl View for DiscordWebhookPayload {
    type V = DiscordWebhookPayloadView;

    open spec fn view(&self) -> DiscordWebhookPayloadView {
        DiscordWebhookPayloadView {
            username: optional_text(self.username),
            avatar_url: optional_text(self.avatar_url),
            content: optional_text(self.content),
            embeds: self.embeds@.map_values(|e: DiscordEmbed| e@),
        }
    }
}

/// The field of the service at `position` of the list, counted from zero: its
/// name after its rank, which counts from one, and its cost with the currency.
pub open spec fn field_of(position: int, service: BillingDataView) -> DiscordEmbedFieldView {
    DiscordEmbedFieldView {
        name: decimal((position + 1) as nat) + ". "@ + service.service_description,
        value: amount_text(service.cost) + " "@ + service.currency,
        inline: true,
    }
}

/// The fields of a message: one for each of the first services, `MAX_FIELDS`
/// at most, in their order.
pub open spec fn fields_of(services: Seq<BillingDataView>) -> Seq<DiscordEmbedFieldView> {
    Seq::new(
        if services.len() <= MAX_FIELDS {
            services.len()
        } else {
            MAX_FIELDS as nat
        },
        |i: int| field_of(i, services[i]),
    )
}

/// The message that reports `summary`, made at the time that `timestamp`
/// writes.
pub open spec fn embed_of(summary: BillingSummaryView, timestamp: Seq<char>) -> DiscordEmbedView {
    DiscordEmbedView {
        title: "Google Cloud Billing Summary (Last "@ + signed_decimal(summary.period_days)
            + " Days)"@,
        description: Some(
            "Total cost: **"@ + amount_text(summary.total_cost) + " "@ + summary.currency + "**"@,
        ),
        color: EMBED_COLOR,
        fields: fields_of(summary.services),
        footer: Some(DiscordEmbedFooterView { text: "Generated on "@ + timestamp }),
    }
}

/// The mark of an endpoint that stands for none: a run with such an endpoint
/// sends nothing.
pub const PLACEHOLDER_TOKEN: &'static str = "your-webhook-id";

/// What the address of every webhook begins with.
pub const WEBHOOK_PREFIX: &'static str = "https://discord.com/api/webhooks/";

/// The pattern of the footer's timestamp: the date, then the time of day to
/// the second.
pub const TIMESTAMP_PATTERN: &'static str = "%Y-%m-%d %H:%M:%S";

/// What a run does with its message.
#[derive(Debug, Clone, Copy, PartialEq, Eq, Structural)]
pub enum DeliveryMode {
    /// The endpoint is a placeholder: the message goes to the log.
    Development,
    /// The endpoint is a webhook: the message is posted to it.
    Production,
    /// The endpoint is neither: nothing is sent, and the run fails.
    Rejected,
}

/// The mode that an endpoint selects.
pub open spec fn delivery_mode(url: Seq<char>) -> DeliveryMode {
    if contains_text(url, PLACEHOLDER_TOKEN@) {
        DeliveryMode::Development
    } else if starts_with_text(url, WEBHOOK_PREFIX@) {
        DeliveryMode::Production
    } else {
        DeliveryMode::Rejected
    }
}

/// What is to be done to deliver a message.
#[derive(Debug, PartialEq, Eq)]
pub enum Delivery {
    /// Nothing is sent: the lines go to the log, and the run has succeeded.
    LogOnly { lines: Vec<String> },
    /// The payload is posted to the address, once.
    Post { url: String, payload: DiscordWebhookPayload },
}

/// Why a message was not delivered.
#[derive(Debug, PartialEq, Eq)]
pub enum DeliveryError {
    /// The endpoint is no webhook address; nothing was sent.
    InvalidWebhookUrl,
    /// The webhook answered with a status that is no success; `body` is the
    /// text of its answer.
    WebhookFailed { body: String },
}

/// A `Delivery` as mathematics.
pub enum DeliveryView {
    LogOnly { lines: Seq<Seq<char>> },
    Post { url: Seq<char>, payload: DiscordWebhookPayloadView },
}

/// A `DeliveryError` as mathematics.
pub enum DeliveryErrorView {
    InvalidWebhookUrl,
    WebhookFailed { body: Seq<char> },
}

impl View for Delivery {
    type V = DeliveryView;

    open spec fn view(&self) -> DeliveryView {
        match *self {
            Delivery::LogOnly { lines } => DeliveryView::LogOnly {
                lines: lines@.map_values(|l: String| l@),
            },
            Delivery::Post { url, payload } => DeliveryView::Post { url: url@, payload: payload@ },
        }
    }
}

impl View for DeliveryError {
    type V = DeliveryErrorView;

    open spec fn view(&self) -> DeliveryErrorView {
        match *self {
            DeliveryError::InvalidWebhookUrl => DeliveryErrorView::InvalidWebhookUrl,
            DeliveryError::WebhookFailed { body } => DeliveryErrorView::WebhookFailed {
                body: body@,
            },
        }
    }
}

/// The line of the log that shows a field.
pub open spec fn log_line_of(field: DiscordEmbedFieldView) -> Seq<char> {
    "  "@ + field.name + ": "@ + field.value
}

/// The lines that show a message in the log: its title, its description, and
/// under a heading its fields, one on a line.
pub open spec fn log_lines_of(embed: DiscordEmbedView) -> Seq<Seq<char>> {
    seq![
        "Title: "@ + embed.title,
        "Description: "@ + match embed.description {
            Some(description) => description,
            None => "None"@,
        },
        "Services:"@,
    ] + embed.fields.map_values(|f: DiscordEmbedFieldView| log_line_of(f))
}

/// What is posted for a message: the sender's name and picture where the
/// settings give them, no plain text, and the one message.
pub open spec fn payload_of(
    settings: DiscordSettingsView,
    embed: DiscordEmbedView,
) -> DiscordWebhookPayloadView {
    DiscordWebhookPayloadView {
        username: settings.username,
        avatar_url: settings.avatar_url,
        content: None,
        embeds: seq![embed],
    }
}

/// What is done to deliver the report of `summary` made at `timestamp`: in
/// development mode its lines are logged, in production mode its payload is
/// posted to the endpoint, and any other endpoint is refused.
pub open spec fn delivery_of(
    settings: DiscordSettingsView,
    summary: BillingSummaryView,
    timestamp: Seq<char>,
) -> Result<DeliveryView, DeliveryErrorView> {
    match delivery_mode(settings.webhook_url) {
        DeliveryMode::Development => Ok(
            DeliveryView::LogOnly { lines: log_lines_of(embed_of(summary, timestamp)) },
        ),
        DeliveryMode::Production => Ok(
            DeliveryView::Post {
                url: settings.webhook_url,
                payload: payload_of(settings, embed_of(summary, timestamp)),
            },
        ),
        DeliveryMode::Rejected => Err(DeliveryErrorView::InvalidWebhookUrl),
    }
}

/// A delivery or its failure, by its view.
pub open spec fn outcome_view(
    outcome: Result<Delivery, DeliveryError>,
) -> Result<DeliveryView, DeliveryErrorView> {
    match outcome {
        Ok(delivery) => Ok(delivery@),
        Err(error) => Err(error@),
    }
}

/// Whether a webhook's answer with this status is a success.
pub open spec fn is_success_status(status: int) -> bool {
    200 <= status < 300
}

/// What a failure says of itself.
pub open spec fn error_text(error: DeliveryErrorView) -> Seq<char> {
    match error {
        DeliveryErrorView::InvalidWebhookUrl => "Invalid Discord webhook URL format"@,
        DeliveryErrorView::WebhookFailed { body } => "Discord webhook failed: "@ + body,
    }
}

/// Of more than `MAX_FIELDS` services a message shows the first `MAX_FIELDS`
/// and no other, each in its place and under its rank, the ranks running
/// from one; and where the services come dearest first, none that is left out
/// has cost more than one that is shown.
pub proof fn lemma_message_shows_the_first(summary: BillingSummaryView, timestamp: Seq<char>)
    requires
        summary.services.len() > MAX_FIELDS,
    ensures
        embed_of(summary, timestamp).fields.len() == MAX_FIELDS,
        forall|i: int|
            0 <= i < MAX_FIELDS ==> #[trigger] embed_of(summary, timestamp).fields[i] == field_of(
                i,
                summary.services[i],
            ),
        forall|i: int|
            0 <= i < MAX_FIELDS ==> starts_with_text(
                #[trigger] embed_of(summary, timestamp).fields[i].name,
                decimal((i + 1) as nat) + ". "@,
            ),
        is_descending(summary.services) ==> forall|i: int, j: int|
            0 <= i < MAX_FIELDS <= j < summary.services.len() ==> (
            #[trigger] summary.services[i]).cost >= (#[trigger] summary.services[j]).cost,
{
    let fields = embed_of(summary, timestamp).fields;
    assert forall|i: int| 0 <= i < MAX_FIELDS implies starts_with_text(
        #[trigger] fields[i].name,
        decimal((i + 1) as nat) + ". "@,
    ) by {
        let rank = decimal((i + 1) as nat) + ". "@;
        assert(fields[i].name == rank + summary.services[i].service_description);
        assert(fields[i].name.subrange(0, rank.len() as int) =~= rank);
    }
}

/// Rendering is a function of the summary and of the moment: two messages
/// rendered from one summary with one timestamp are the same, character for
/// character, and so are what is logged or posted for them.
pub proof fn lemma_rendering_repeats(
    first: DiscordEmbed,
    second: DiscordEmbed,
    summary: BillingSummary,
    timestamp: Seq<char>,
)
    requires
        first@ == embed_of(summary@, timestamp),
        second@ == embed_of(summary@, timestamp),
    ensures
        first@ == second@,
        first.title@ == second.title@,
        optional_text(first.description) == optional_text(second.description),
        first.fields@.len() == second.fields@.len(),
        forall|i: int| 0 <= i < first.fields@.len() ==> first.fields@[i]@ == second.fields@[i]@,
        log_lines_of(first@) == log_lines_of(second@),
{
    assert(first@.fields.len() == first.fields@.len());
    assert(second@.fields.len() == second.fields@.len());
    assert forall|i: int| 0 <= i < first.fields@.len() implies first.fields@[i]@
        == second.fields@[i]@ by {
        assert(first@.fields[i] == first.fields@[i]@);
        assert(second@.fields[i] == second.fields@[i]@);
    }
}

/// The text of a failed delivery holds the webhook's answer, whatever it is.
pub proof fn lemma_failure_text_holds_answer(body: Seq<char>)
    ensures
        contains_text(error_text(DeliveryErrorView::WebhookFailed { body }), body),
{
    let lead = "Discord webhook failed: "@;
    let text = error_text(DeliveryErrorView::WebhookFailed { body });
    assert(text.subrange(lead.len() as int, (lead.len() + body.len()) as int) =~= body);
    assert(occurs_at(text, body, lead.len() as int));
}

/// Renders the field of the service at `position` of the list.
fn render_field(position: usize, service: &BillingData) -> (field: DiscordEmbedField)
    requires
        position < MAX_FIELDS,
    ensures
        field@ == field_of(position as int, service@),
{
    let mut name = decimal_text((position + 1) as u64);
    name.append(". ");
    name.append(service.service_description.as_str());
    let mut value = service.cost.to_text();
    value.append(" ");
    value.append(service.currency.as_str());
    DiscordEmbedField { name, value, inline: true }
}

/// Renders the message that reports `summary`, with `timestamp` in its footer.
pub fn render_embed(summary: &BillingSummary, timestamp: &str) -> (embed: DiscordEmbed)
    ensures
        embed@ == embed_of(summary@, timestamp@),
{
    let shown: usize = if summary.services.len() < MAX_FIELDS {
        summary.services.len()
    } else {
        MAX_FIELDS
    };
    let mut fields: Vec<DiscordEmbedField> = Vec::new();
    let mut i: usize = 0;
    while i < shown
        invariant
            i <= shown <= MAX_FIELDS,
            shown <= summary.services@.len(),
            fields@.len() == i,
            forall|j: int|
                0 <= j < i ==> (#[trigger] fields@[j])@ == field_of(j, summary.services@[j]@),
        decreases shown - i,
    {
        fields.push(render_field(i, &summary.services[i]));
        i += 1;
    }
    let mut title = String::from_str("Google Cloud Billing Summary (Last ");
    title.append(signed_decimal_text(summary.period_days).as_str());
    title.append(" Days)");
    let mut description = String::from_str("Total cost: **");
    description.append(summary.total_cost.to_text().as_str());
    description.append(" ");
    description.append(summary.currency.as_str());
    description.append("**");
    let mut footer = String::from_str("Generated on ");
    footer.append(timestamp);
    let embed = DiscordEmbed {
        title,
        description: Some(description),
        color: EMBED_COLOR,
        fields,
        footer: Some(DiscordEmbedFooter { text: footer }),
    };
    assert(embed@.fields =~= fields_of(summary@.services));
    embed
}

/// The mode that the settings' endpoint selects.
pub fn select_mode(settings: &DiscordSettings) -> (mode: DeliveryMode)
    ensures
        mode == delivery_mode(settings@.webhook_url),
{
    if contains(settings.webhook_url.as_str(), PLACEHOLDER_TOKEN) {
        DeliveryMode::Development
    } else if starts_with(settings.webhook_url.as_str(), WEBHOOK_PREFIX) {
        DeliveryMode::Production
    } else {
        DeliveryMode::Rejected
    }
}

/// The lines that show `embed` in the log.
pub fn log_lines(embed: &DiscordEmbed) -> (lines: Vec<String>)
    ensures
        lines@.map_values(|l: String| l@) == log_lines_of(embed@),
{
    let mut lines: Vec<String> = Vec::new();
    let mut title = String::from_str("Title: ");
    title.append(embed.title.as_str());
    lines.push(title);
    let mut description = String::from_str("Description: ");
    match &embed.description {
        Some(text) => description.append(text.as_str()),
        None => description.append("None"),
    }
    lines.push(description);
    lines.push(String::from_str("Services:"));
    let mut i: usize = 0;
    while i < embed.fields.len()
        invariant
            i <= embed.fields@.len(),
            lines@.len() == 3 + i,
            lines@[0]@ == log_lines_of(embed@)[0],
            lines@[1]@ == log_lines_of(embed@)[1],
            lines@[2]@ == log_lines_of(embed@)[2],
            forall|j: int| 0 <= j < i ==> (#[trigger] lines@[3 + j])@ == log_line_of(embed.fields@[j]@),
        decreases embed.fields@.len() - i,
    {
        let field = &embed.fields[i];
        let mut line = String::from_str("  ");
        line.append(field.name.as_str());
        line.append(": ");
        line.append(field.value.as_str());
        lines.push(line);
        i += 1;
    }
    proof {
        let shown = lines@.map_values(|l: String| l@);
        let wanted = log_lines_of(embed@);
        assert(wanted.len() == 3 + embed.fields@.len());
        assert forall|j: int| 0 <= j < shown.len() implies shown[j] == wanted[j] by {
            if j >= 3 {
                assert(lines@[3 + (j - 3)]@ == log_line_of(embed.fields@[j - 3]@));
            }
        }
        assert(shown =~= wanted);
    }
    lines
}

/// Decides how the report of `summary` is delivered, with `timestamp` as the
/// time of its making.
pub fn plan_delivery(settings: &DiscordSettings, summary: &BillingSummary, timestamp: &str) -> (outcome:
    Result<Delivery, DeliveryError>)
    ensures
        outcome_view(outcome) == delivery_of(settings@, summary@, timestamp@),
{
    match select_mode(settings) {
        DeliveryMode::Development => {
            let embed = render_embed(summary, timestamp);
            Ok(Delivery::LogOnly { lines: log_lines(&embed) })
        },
        DeliveryMode::Production => {
            let embed = render_embed(summary, timestamp);
            let mut embeds: Vec<DiscordEmbed> = Vec::new();
            embeds.push(embed);
            let payload = DiscordWebhookPayload {
                username: settings.username.clone(),
                avatar_url: settings.avatar_url.clone(),
                content: None,
                embeds,
            };
            assert(payload@.embeds =~= seq![embed_of(summary@, timestamp@)]);
            Ok(Delivery::Post { url: settings.webhook_url.clone(), payload })
        },
        DeliveryMode::Rejected => Err(DeliveryError::InvalidWebhookUrl),
    }
}

/// The local date and time of this moment, written after `pattern` by
/// `chrono::Local::now().format(..)`. Nothing is claimed of the text: it
/// depends on the clock and on the time zone of the machine. On this one
/// pattern chrono's formatting does not fail; `Local::now` itself panics where
/// the system clock stands before 1970.
#[verifier::external_body]
fn local_time_text(pattern: &str) -> (text: String)
    requires
        pattern@ == TIMESTAMP_PATTERN@,
{
    chrono::Local::now().format(pattern).to_string()
}

/// Decides how the report of `summary` is delivered, made at this moment of
/// local time.
pub fn send_billing_summary(settings: &DiscordSettings, summary: &BillingSummary) -> (outcome:
    Result<Delivery, DeliveryError>)
    ensures
        exists|timestamp: Seq<char>|
            outcome_view(outcome) == #[trigger] delivery_of(settings@, summary@, timestamp),
        outcome is Err <==> delivery_mode(settings@.webhook_url) == DeliveryMode::Rejected,
        outcome matches Ok(delivery) ==> (delivery is LogOnly <==> delivery_mode(
            settings@.webhook_url,
        ) == DeliveryMode::Development),
{
    let timestamp = local_time_text(TIMESTAMP_PATTERN);
    plan_delivery(settings, summary, timestamp.as_str())
}

/// Whether a webhook's answer with this status is a success.
pub fn status_is_success(status: u16) -> (success: bool)
    ensures
        success == is_success_status(status as int),
{
    200 <= status && status < 300
}

/// What the webhook's answer means for the run: a success, or a failure that
/// carries the text of the answer.
pub fn response_outcome(status: u16, body: String) -> (outcome: Result<(), DeliveryError>)
    ensures
        match outcome {
            Ok(_) => is_success_status(status as int),
            Err(error) => !is_success_status(status as int) && error@
                == (DeliveryErrorView::WebhookFailed { body: body@ }),
        },
{
    if status_is_success(status) {
        Ok(())
    } else {
        Err(DeliveryError::WebhookFailed { body })
    }
}

impl DeliveryError {
    /// What the failure says of itself.
    pub fn message(&self) -> (text: String)
        ensures
            text@ == error_text(self@),
    {
        match self {
            DeliveryError::InvalidWebhookUrl => String::from_str(
                "Invalid Discord webhook URL format",
            ),
            DeliveryError::WebhookFailed { body } => {
                let mut text = String::from_str("Discord webhook failed: ");
                text.append(body.as_str());
                text
            },
        }
    }
}

} // verus!

use gcp_billing_alert::amount::Amount;
use gcp_billing_alert::bigquery::{BillingData, BillingSummary};
use gcp_billing_alert::config::DiscordSettings;
use gcp_billing_alert::discord::{
    log_lines, plan_delivery, render_embed, response_outcome, select_mode, send_billing_summary,
    status_is_success, Delivery, DeliveryError, DeliveryMode, DiscordEmbed, DiscordEmbedField,
    DiscordEmbedFooter, DiscordWebhookPayload, EMBED_COLOR, MAX_FIELDS, PLACEHOLDER_TOKEN,
    TIMESTAMP_PATTERN, WEBHOOK_PREFIX,
};

const NOON: &str = "2024-05-01 12:00:00";

fn settings(url: &str) -> DiscordSettings {
    DiscordSettings { webhook_url: url.to_string(), username: None, avatar_url: None }
}

fn service(name: &str, cost: i64) -> BillingData {
    BillingData {
        service_description: name.to_string(),
        cost: Amount::new(cost),
        currency: "USD".to_string(),
    }
}

fn test_summary() -> BillingSummary {
    BillingSummary {
        total_cost: Amount::new(10000),
        currency: "USD".to_string(),
        services: vec![service("Test Service 1", 7500), service("Test Service 2", 2500)],
        period_days: 7,
    }
}

fn summary_of_services(count: usize) -> BillingSummary {
    let services: Vec<BillingData> = (0..count)
        .map(|i| service(&format!("Service {}", i), 1000 * (count - i) as i64))
        .collect();
    BillingSummary {
        total_cost: Amount::new(services.iter().map(|s| s.cost.hundredths).sum()),
        currency: "USD".to_string(),
        services,
        period_days: 30,
    }
}

fn field(name: &str, value: &str) -> DiscordEmbedField {
    DiscordEmbedField { name: name.to_string(), value: value.to_string(), inline: true }
}

fn test_embed() -> DiscordEmbed {
    DiscordEmbed {
        title: "Google Cloud Billing Summary (Last 7 Days)".to_string(),
        description: Some("Total cost: **100.00 USD**".to_string()),
        color: 4886754,
        fields: vec![field("1. Test Service 1", "75.00 USD"), field("2. Test Service 2", "25.00 USD")],
        footer: Some(DiscordEmbedFooter { text: "Generated on 2024-05-01 12:00:00".to_string() }),
    }
}

#[test]
fn test_discord_message_posting() {
    let settings = settings("https://discord.com/api/webhooks/your-webhook-id/token");
    let billing_summary = test_summary();
    let delivery = send_billing_summary(&settings, &billing_summary).unwrap();
    match delivery {
        Delivery::LogOnly { lines } => {
            assert_eq!(lines[0], "Title: Google Cloud Billing Summary (Last 7 Days)");
            assert_eq!(lines[1], "Description: Total cost: **100.00 USD**");
            assert_eq!(lines[2], "Services:");
            assert_eq!(lines[3], "  1. Test Service 1: 75.00 USD");
            assert_eq!(lines[4], "  2. Test Service 2: 25.00 USD");
            assert_eq!(lines.len(), 5);
        }
        Delivery::Post { .. } => panic!("a placeholder endpoint must not be posted to"),
    }
    println!("Successfully sent message to Discord");
}

#[test]
fn the_constants_of_a_message() {
    assert_eq!(MAX_FIELDS, 10);
    assert_eq!(EMBED_COLOR, 4886754);
    assert_eq!(PLACEHOLDER_TOKEN, "your-webhook-id");
    assert_eq!(WEBHOOK_PREFIX, "https://discord.com/api/webhooks/");
    assert_eq!(TIMESTAMP_PATTERN, "%Y-%m-%d %H:%M:%S");
}

#[test]
fn render_embed_writes_title_total_fields_and_footer() {
    assert_eq!(render_embed(&test_summary(), NOON), test_embed());
}

#[test]
fn render_embed_of_an_empty_summary() {
    let summary = BillingSummary {
        total_cost: Amount::new(0),
        currency: String::new(),
        services: Vec::new(),
        period_days: 30,
    };
    let embed = render_embed(&summary, "");
    assert_eq!(embed.title, "Google Cloud Billing Summary (Last 30 Days)");
    assert_eq!(embed.description, Some("Total cost: **0.00 **".to_string()));
    assert!(embed.fields.is_empty());
    assert_eq!(embed.footer, Some(DiscordEmbedFooter { text: "Generated on ".to_string() }));
}

#[test]
fn render_embed_shows_ten_services_at_most() {
    let summary = summary_of_services(13);
    let embed = render_embed(&summary, NOON);
    assert_eq!(embed.fields.len(), 10);
    for (i, shown) in embed.fields.iter().enumerate() {
        assert_eq!(shown.name, format!("{}. Service {}", i + 1, i));
        assert_eq!(shown.value, format!("{}.00 USD", 10 * (13 - i)));
        assert!(shown.inline);
    }
    assert_eq!(embed.fields[0].name, "1. Service 0");
    assert_eq!(embed.fields[0].value, "130.00 USD");
    assert_eq!(embed.fields[9].name, "10. Service 9");
    assert_eq!(embed.fields[9].value, "40.00 USD");
}

#[test]
fn render_embed_shows_every_service_up_to_ten() {
    for count in [0usize, 1, 9, 10, 11] {
        let embed = render_embed(&summary_of_services(count), NOON);
        assert_eq!(embed.fields.len(), count.min(10));
    }
}

#[test]
fn render_embed_twice_gives_the_same_message() {
    let summary = summary_of_services(12);
    let first = render_embed(&summary, NOON);
    let second = render_embed(&summary, NOON);
    assert_eq!(first, second);
    assert_eq!(log_lines(&first), log_lines(&second));
    assert_ne!(first, render_embed(&summary, "2024-05-01 12:00:01"));
}

#[test]
fn select_mode_tells_the_three_modes_apart() {
    let mode = |url: &str| select_mode(&settings(url));
    assert_eq!(
        mode("https://discord.com/api/webhooks/your-webhook-id/token"),
        DeliveryMode::Development
    );
    assert_eq!(mode("your-webhook-id"), DeliveryMode::Development);
    assert_eq!(mode("ftp://elsewhere/your-webhook-id"), DeliveryMode::Development);
    assert_eq!(mode("https://discord.com/api/webhooks/123/abc"), DeliveryMode::Production);
    assert_eq!(mode("https://discord.com/api/webhooks/"), DeliveryMode::Production);
    assert_eq!(mode("https://not-discord.example.com/hook"), DeliveryMode::Rejected);
    assert_eq!(mode("http://discord.com/api/webhooks/123/abc"), DeliveryMode::Rejected);
    assert_eq!(mode(" https://discord.com/api/webhooks/123/abc"), DeliveryMode::Rejected);
    assert_eq!(mode("https://discord.com/api/webhooks"), DeliveryMode::Rejected);
    assert_eq!(mode(""), DeliveryMode::Rejected);
}

#[test]
fn delivery_to_a_placeholder_endpoint_only_logs() {
    let settings = settings("https://discord.com/api/webhooks/your-webhook-id/token");
    let delivery = plan_delivery(&settings, &test_summary(), NOON);
    assert_eq!(
        delivery,
        Ok(Delivery::LogOnly {
            lines: vec![
                "Title: Google Cloud Billing Summary (Last 7 Days)".to_string(),
                "Description: Total cost: **100.00 USD**".to_string(),
                "Services:".to_string(),
                "  1. Test Service 1: 75.00 USD".to_string(),
                "  2. Test Service 2: 25.00 USD".to_string(),
            ],
        })
    );
    assert!(matches!(
        send_billing_summary(&settings, &test_summary()),
        Ok(Delivery::LogOnly { .. })
    ));
}

#[test]
fn delivery_to_an_endpoint_that_is_no_webhook_fails() {
    let settings = settings("https://not-discord.example.com/hook");
    assert_eq!(
        plan_delivery(&settings, &test_summary(), NOON),
        Err(DeliveryError::InvalidWebhookUrl)
    );
    assert_eq!(
        send_billing_summary(&settings, &test_summary()),
        Err(DeliveryError::InvalidWebhookUrl)
    );
    assert_eq!(DeliveryError::InvalidWebhookUrl.message(), "Invalid Discord webhook URL format");
}

#[test]
fn delivery_to_a_webhook_posts_the_payload() {
    let settings = DiscordSettings {
        webhook_url: "https://discord.com/api/webhooks/123/abc".to_string(),
        username: Some("Billing Bot".to_string()),
        avatar_url: None,
    };
    assert_eq!(
        plan_delivery(&settings, &test_summary(), NOON),
        Ok(Delivery::Post {
            url: "https://discord.com/api/webhooks/123/abc".to_string(),
            payload: DiscordWebhookPayload {
                username: Some("Billing Bot".to_string()),
                avatar_url: None,
                content: None,
                embeds: vec![test_embed()],
            },
        })
    );
}

#[test]
fn delivery_posts_name_and_picture_where_given() {
    let settings = DiscordSettings {
        webhook_url: "https://discord.com/api/webhooks/123/abc".to_string(),
        username: None,
        avatar_url: Some("https://example.com/a.png".to_string()),
    };
    match plan_delivery(&settings, &test_summary(), NOON) {
        Ok(Delivery::Post { payload, .. }) => {
            assert_eq!(payload.username, None);
            assert_eq!(payload.avatar_url, Some("https://example.com/a.png".to_string()));
            assert_eq!(payload.content, None);
            assert_eq!(payload.embeds.len(), 1);
        }
        other => panic!("expected a post, got {:?}", other),
    }
}

#[test]
fn delivery_now_stamps_the_footer_with_date_and_time() {
    let settings = settings("https://discord.com/api/webhooks/123/abc");
    let payload = match send_billing_summary(&settings, &test_summary()) {
        Ok(Delivery::Post { payload, .. }) => payload,
        other => panic!("expected a post, got {:?}", other),
    };
    let footer = match &payload.embeds[0].footer {
        Some(footer) => footer.text.clone(),
        None => panic!("a message has a footer"),
    };
    let stamp = footer.strip_prefix("Generated on ").unwrap();
    assert_ne!(stamp, TIMESTAMP_PATTERN);
    let shape: String =
        stamp.chars().map(|c| if c.is_ascii_digit() { '9' } else { c }).collect();
    assert_eq!(shape, "9999-99-99 99:99:99");
    let mut expected = test_embed();
    expected.footer = Some(DiscordEmbedFooter { text: footer.clone() });
    assert_eq!(payload.embeds[0], expected);
}

#[test]
fn log_lines_show_a_message_without_description() {
    let mut embed = test_embed();
    embed.description = None;
    embed.fields.truncate(1);
    assert_eq!(
        log_lines(&embed),
        vec![
            "Title: Google Cloud Billing Summary (Last 7 Days)",
            "Description: None",
            "Services:",
            "  1. Test Service 1: 75.00 USD",
        ]
    );
}

#[test]
fn status_is_success_from_200_to_299() {
    assert!(!status_is_success(0));
    assert!(!status_is_success(199));
    assert!(status_is_success(200));
    assert!(status_is_success(204));
    assert!(status_is_success(299));
    assert!(!status_is_success(300));
    assert!(!status_is_success(404));
    assert!(!status_is_success(500));
    assert!(!status_is_success(u16::MAX));
}

#[test]
fn a_failed_post_reports_the_answer() {
    let outcome = response_outcome(500, "rate limited".to_string());
    assert_eq!(outcome, Err(DeliveryError::WebhookFailed { body: "rate limited".to_string() }));
    let message = outcome.unwrap_err().message();
    assert!(message.contains("rate limited"));
    assert_eq!(message, "Discord webhook failed: rate limited");
}

#[test]
fn a_successful_post_ends_the_run() {
    assert_eq!(response_outcome(200, String::new()), Ok(()));
    assert_eq!(response_outcome(204, "ignored".to_string()), Ok(()));
    assert_eq!(
        response_outcome(302, String::new()),
        Err(DeliveryError::WebhookFailed { body: String::new() })
    );
}

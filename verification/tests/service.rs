use order_total::Header;
use order_total::HttpResponse;
use order_total::Order;
use order_total::RateReply;
use order_total::RateStep;
use order_total::Route;
use order_total::RouteAction;
use order_total::decode_failure_response;
use order_total::dispatch;
use order_total::error_envelope;
use order_total::internal_error_response;
use order_total::interpret_rate_reply;
use order_total::not_found_response;
use order_total::plain_response;
use order_total::rate_failure_response;
use order_total::response_build;
use order_total::route_of;
use order_total::sanitize_error_text;
use order_total::str_eq;
use order_total::finish_compute;
use order_total::TotalOutcome;

fn assert_cors_headers(headers: &[Header]) {
    assert_eq!(headers.len(), 3);
    assert_eq!(headers[0].name, "Access-Control-Allow-Origin");
    assert_eq!(headers[0].value, "*");
    assert_eq!(headers[1].name, "Access-Control-Allow-Methods");
    assert_eq!(headers[1].value, "GET, POST, OPTIONS");
    assert_eq!(headers[2].name, "Access-Control-Allow-Headers");
    assert_eq!(headers[2].value, "api,Keep-Alive,User-Agent,Content-Type");
}

#[test]
fn str_eq_basic() {
    assert!(str_eq("abc", "abc"));
    assert!(!str_eq("abc", "abd"));
    assert!(!str_eq("abc", "abcd"));
    assert!(str_eq("", ""));
}

#[test]
fn routes_by_method_and_path() {
    assert_eq!(route_of("OPTIONS", "/compute"), Route::CorsPreflight);
    assert_eq!(route_of("GET", "/"), Route::Instructions);
    assert_eq!(route_of("POST", "/compute"), Route::Compute);
    assert_eq!(route_of("GET", "/compute"), Route::NotFound);
    assert_eq!(route_of("POST", "/"), Route::NotFound);
    assert_eq!(route_of("GET", "/unknown"), Route::NotFound);
    assert_eq!(route_of("PUT", "/compute"), Route::NotFound);
}

#[test]
fn preflight_has_cors_headers_and_empty_body() {
    match dispatch("OPTIONS", "/compute") {
        RouteAction::Respond(r) => {
            assert_eq!(r.status, 200);
            assert_cors_headers(&r.headers);
            assert_eq!(r.body, "");
        }
        RouteAction::ReadAndCompute => panic!("preflight must answer at once"),
    }
}

#[test]
fn root_serves_instructions() {
    match dispatch("GET", "/") {
        RouteAction::Respond(r) => {
            assert_eq!(r.status, 200);
            assert_eq!(r.headers.len(), 0);
            assert_eq!(
                r.body,
                "Try POSTing data to /compute such as: `curl localhost:8002/compute -XPOST -d '...'`",
            );
        }
        RouteAction::ReadAndCompute => panic!("instructions must answer at once"),
    }
}

#[test]
fn compute_route_reads_the_body() {
    assert!(matches!(dispatch("POST", "/compute"), RouteAction::ReadAndCompute));
}

#[test]
fn unknown_path_is_not_found() {
    for path in ["/unknown", "/compute/", "/find_rate", ""] {
        match dispatch("GET", path) {
            RouteAction::Respond(r) => {
                assert_eq!(r.status, 404);
                assert_eq!(r.headers.len(), 0);
                assert_eq!(r.body, "");
            }
            RouteAction::ReadAndCompute => panic!("unmatched routes must answer at once"),
        }
    }
}

#[test]
fn response_build_wraps_any_body() {
    let r = response_build("{\"a\":1}");
    assert_eq!(r.status, 200);
    assert_cors_headers(&r.headers);
    assert_eq!(r.body, "{\"a\":1}");
}

#[test]
fn plain_and_not_found_responses() {
    let p = plain_response("hello");
    assert_eq!(p.status, 200);
    assert_eq!(p.headers.len(), 0);
    assert_eq!(p.body, "hello");
    let n = not_found_response();
    assert_eq!(n.status, 404);
    assert_eq!(n.headers.len(), 0);
    assert_eq!(n.body, "");
}

#[test]
fn missing_field_message_is_sanitized() {
    let out = sanitize_error_text("missing field `quantity` at line 1 column 90");
    assert_eq!(out, "missing field quantity");
}

#[test]
fn missing_field_underscores_become_spaces() {
    let out = sanitize_error_text("missing field `shipping_zip` at line 1 column 55");
    assert_eq!(out, "missing field shipping zip");
}

#[test]
fn missing_field_without_location_keeps_whole_text() {
    let out = sanitize_error_text("missing field `quntity`");
    assert_eq!(out, "missing field quntity");
}

#[test]
fn missing_field_is_lowercased() {
    let out = sanitize_error_text("missing field `ZIP` here");
    assert_eq!(out, "missing field zip here");
}

#[test]
fn earlier_at_inside_a_word_still_cuts() {
    let out = sanitize_error_text("missing field `data`");
    assert_eq!(out, "missing field ");
}

#[test]
fn other_errors_pass_through_untouched() {
    let raw = "invalid type: string \"x\", expected i32 at line 1 column 15";
    assert_eq!(sanitize_error_text(raw), raw);
    let raw2 = "expected value at line 1 column 1";
    assert_eq!(sanitize_error_text(raw2), raw2);
}

#[test]
fn envelope_has_the_fixed_shape() {
    assert_eq!(
        error_envelope("boom"),
        "{\"status\":\"error\", \"message\":\"boom\"}",
    );
}

#[test]
fn decode_failure_response_is_enveloped_and_cors() {
    let r = decode_failure_response("missing field `quantity` at line 1 column 90");
    assert_eq!(r.status, 200);
    assert_cors_headers(&r.headers);
    assert_eq!(
        r.body,
        "{\"status\":\"error\", \"message\":\"missing field quantity\"}",
    );
}

#[test]
fn rate_200_reply_is_applied() {
    let reply = RateReply::Reply { status: 200, body: "0.05".to_owned() };
    match interpret_rate_reply(reply) {
        RateStep::ApplyRate { rate_text } => assert_eq!(rate_text, "0.05"),
        RateStep::Reject => panic!("a 200 reply must be applied"),
    }
}

#[test]
fn non_200_replies_are_rejected() {
    for status in [404u16, 500, 201, 199] {
        let reply = RateReply::Reply { status, body: "0.05".to_owned() };
        assert!(matches!(interpret_rate_reply(reply), RateStep::Reject));
    }
    assert!(matches!(interpret_rate_reply(RateReply::NoReply), RateStep::Reject));
}

#[test]
fn lookup_failure_names_the_zip() {
    let r = rate_failure_response("10001");
    assert_eq!(r.status, 200);
    assert_cors_headers(&r.headers);
    assert_eq!(
        r.body,
        "{\"status\":\"error\", \"message\":\"The zip code (10001) in the order does not have a corresponding sales tax rate.\"}",
    );
    assert!(r.body.contains("10001"));
    assert!(!r.body.contains("total"));
}

#[test]
fn internal_failure_is_a_500_envelope() {
    let r = internal_error_response();
    assert_eq!(r.status, 500);
    assert_cors_headers(&r.headers);
    assert_eq!(
        r.body,
        "{\"status\":\"error\", \"message\":\"unexpected internal failure\"}",
    );
}

#[test]
fn with_total_overwrites_only_the_total() {
    let order = Order {
        order_id: 1,
        product_id: 2,
        quantity: 3,
        subtotal_bits: 10.0f32.to_bits(),
        shipping_address: "123 Main Street Anytown USA".to_owned(),
        shipping_zip: "10001".to_owned(),
        total_bits: 0.0f32.to_bits(),
    };
    let rate: f32 = "0.05".parse().unwrap();
    let total = f32::from_bits(order.subtotal_bits) * (1.0 + rate);
    let totaled = order.with_total(total.to_bits());
    assert_eq!(totaled.order_id, 1);
    assert_eq!(totaled.product_id, 2);
    assert_eq!(totaled.quantity, 3);
    assert_eq!(f32::from_bits(totaled.subtotal_bits), 10.0);
    assert_eq!(totaled.shipping_address, "123 Main Street Anytown USA");
    assert_eq!(totaled.shipping_zip, "10001");
    assert!((f32::from_bits(totaled.total_bits) - 10.0 * 1.05).abs() < 1e-6);
}

#[test]
fn equal_requests_get_identical_answers() {
    let a = rate_failure_response("90210");
    let b = rate_failure_response("90210");
    assert_eq!(a.body, b.body);
    assert_eq!(a.status, b.status);
    let s1 = sanitize_error_text("missing field `quantity` at line 1 column 90");
    let s2 = sanitize_error_text("missing field `quantity` at line 1 column 90");
    assert_eq!(s1, s2);
    let d1 = dispatch("OPTIONS", "/compute");
    let d2 = dispatch("OPTIONS", "/compute");
    match (d1, d2) {
        (RouteAction::Respond(x), RouteAction::Respond(y)) => {
            assert_eq!(x.body, y.body);
            assert_eq!(x.status, y.status);
        }
        _ => panic!("preflight must answer at once"),
    }
}

#[test]
fn empty_text_passes_through() {
    assert_eq!(sanitize_error_text(""), "");
}

#[test]
fn leading_at_cuts_everything() {
    assert_eq!(sanitize_error_text("at_x missing field"), "");
}

#[test]
fn serialized_order_is_the_success_body() {
    let json = "{\n  \"order_id\": 1\n}";
    let r = finish_compute("10001", TotalOutcome::Serialized(json.to_owned()));
    assert_eq!(r.status, 200);
    assert_cors_headers(&r.headers);
    assert_eq!(r.body, json);
}

#[test]
fn unparseable_rate_is_a_lookup_failure() {
    let r = finish_compute("10001", TotalOutcome::RateUnparseable);
    assert_eq!(r.status, 200);
    assert_cors_headers(&r.headers);
    assert_eq!(
        r.body,
        "{\"status\":\"error\", \"message\":\"The zip code (10001) in the order does not have a corresponding sales tax rate.\"}",
    );
}

#[test]
fn failed_serialization_is_internal() {
    let r = finish_compute("10001", TotalOutcome::SerializeFailed);
    assert_eq!(r.status, 500);
    assert_eq!(
        r.body,
        "{\"status\":\"error\", \"message\":\"unexpected internal failure\"}",
    );
}

#[test]
fn responses_carry_arbitrary_zip_text() {
    let r: HttpResponse = rate_failure_response("SW1A 1AA");
    assert!(r.body.contains("(SW1A 1AA)"));
}

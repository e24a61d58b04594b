use wechat_pay_rust_sdk::error::PayError;
use wechat_pay_rust_sdk::pay::WechatPay;
use wechat_pay_rust_sdk::weixin::find_weixin_link;

fn found(text: &str) -> String {
    find_weixin_link(text).unwrap().unwrap()
}

#[test]
fn link_is_read_out_of_its_line() {
    assert_eq!(found("  data-url=\"weixin://wxpay/abc\" other"), "weixin://wxpay/abc");
}

#[test]
fn page_without_the_scheme_has_no_link() {
    assert_eq!(find_weixin_link("<html>\n<body>nothing here</body>\n</html>"), Err(PayError::WeixinNotFound));
    assert_eq!(find_weixin_link(""), Err(PayError::WeixinNotFound));
    assert_eq!(find_weixin_link("weixin:/"), Err(PayError::WeixinNotFound));
    assert_eq!(find_weixin_link("weixin:\n//x"), Err(PayError::WeixinNotFound));
    assert_eq!(find_weixin_link("weixin:\"//x"), Err(PayError::WeixinNotFound));
    assert_eq!(find_weixin_link("WEIXIN://x"), Err(PayError::WeixinNotFound));
}

#[test]
fn link_is_found_among_many_lines() {
    let page = "<html>\n<a href=\"https://example.com\">x</a>\n<script>var url=\"weixin://wap/pay?prepayid%3Dwx20\";</script>\n<p>\"weixin://second\"</p>\n</html>";
    assert_eq!(found(page), "weixin://wap/pay?prepayid%3Dwx20");
}

#[test]
fn stretch_runs_to_the_ends_of_the_line() {
    assert_eq!(found("weixin://a"), "weixin://a");
    assert_eq!(found("weixin://"), "weixin://");
    assert_eq!(found("go to weixin://a now\nnext"), "go to weixin://a now");
    assert_eq!(found("first\ngo to weixin://a now"), "go to weixin://a now");
    assert_eq!(found("x\"pre weixin://a"), "pre weixin://a");
    assert_eq!(found("weixin://a b\"post"), "weixin://a b");
    assert_eq!(found("\"weixin://a\""), "weixin://a");
    assert_eq!(found("\nweixin://a\n"), "weixin://a");
}

#[test]
fn first_of_two_links_is_taken() {
    assert_eq!(found("\"weixin://one\" \"weixin://two\""), "weixin://one");
    assert_eq!(found("a\nweixin://one\nweixin://two"), "weixin://one");
    assert_eq!(found("weixin://weixin://"), "weixin://weixin://");
}

#[test]
fn characters_of_more_than_one_byte_are_kept_whole() {
    assert_eq!(found("支付 \"weixin://wxpay/支付?a=1\" 完"), "weixin://wxpay/支付?a=1");
    assert_eq!(found("é\né weixin://é é\né"), "é weixin://é é");
}

#[test]
fn get_weixin_reads_the_page() {
    let pay = WechatPay::new("a", "m", "k", "s", "v", "u");
    assert_eq!(
        pay.get_weixin("  data-url=\"weixin://wxpay/abc\" other"),
        Ok(Some("weixin://wxpay/abc".to_string()))
    );
    assert_eq!(pay.get_weixin("<html></html>"), Err(PayError::WeixinNotFound));
}

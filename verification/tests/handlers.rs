use kugou_api::handlers::replies::login_qr_create;
use kugou_api::js::{from_json_text, to_json_text};

#[test]
fn qr_without_image_matches_node_response() {
    let params = from_json_text(r#"{"key":"contract-test"}"#).unwrap();
    let response = login_qr_create(&params).unwrap();
    assert_eq!(response.status, 200);
    assert_eq!(
        to_json_text(&response.body),
        r#"{"code":200,"data":{"base64":"","url":"https://h5.kugou.com/apps/loginQRCode/html/index.html?qrcode=contract-test"}}"#
    );
}

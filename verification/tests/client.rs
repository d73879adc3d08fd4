use jeedom_summary::io_models::JeedomJsonRpcRequest;
use jeedom_summary::JeedomClient;

#[test]
fn jeedom_client_new() {
    let url = "http://127.0.0.1:8080".to_string();
    let apikey = "xxxxxx".to_string();
    assert_eq!(
        JeedomClient::new(url.clone(), apikey.clone(), false),
        JeedomClient {
            url: format!("{url}/core/api/jeeApi.php"),
            apikey,
            debug: false
        }
    )
}

#[test]
fn rpc_request_carries_the_method_and_key() {
    let request = JeedomJsonRpcRequest::new("xxxxxx".to_string(), "ping".to_string());
    assert_eq!(request.jsonrpc, "2.0");
    assert_eq!(request.id, "1");
    assert_eq!(request.method, "ping");
    assert_eq!(request.params.apikey, "xxxxxx");
    assert_eq!(request.params.datetime, "1");
}

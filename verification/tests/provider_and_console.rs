use cloudman::console::decode_console_output;
use cloudman::entity::Instance;
use cloudman::provider::{gather_reservations, Reservation};

fn bare_ent(id: &str) -> Instance {
    Instance {
        instance_id: id.to_string(),
        tags: None,
        architecture: None,
        vpc_id: None,
        instance_type: None,
        key_name: None,
        state_code: None,
        state_name: None,
        public_ip_address: None,
        private_ip_address: None,
    }
}

#[test]
fn gather_flattens_reservations_in_order() {
    let rs = vec![
        Reservation { instances: Some(vec![bare_ent("1"), bare_ent("2")]) },
        Reservation { instances: None },
        Reservation { instances: Some(vec![]) },
        Reservation { instances: Some(vec![bare_ent("3")]) },
    ];
    let out = gather_reservations(&rs);
    let ids: Vec<String> = out.iter().map(|e| e.instance_id.clone()).collect();
    assert_eq!(ids, vec!["1", "2", "3"]);
}

#[test]
fn gather_of_nothing_is_empty() {
    assert!(gather_reservations(&vec![]).is_empty());
    let rs = vec![Reservation { instances: None }];
    assert!(gather_reservations(&rs).is_empty());
}

#[test]
fn console_output_decodes_base64() {
    let r = decode_console_output(&Some("aGVsbG8gd29ybGQ=".to_string()));
    assert_eq!(r.unwrap(), b"hello world".to_vec());
}

#[test]
fn console_output_rejects_invalid_text_and_absence() {
    assert!(decode_console_output(&Some("!!not base64!!".to_string())).is_err());
    assert!(decode_console_output(&None).is_err());
    let empty = decode_console_output(&Some(String::new()));
    assert_eq!(empty.unwrap(), Vec::<u8>::new());
}

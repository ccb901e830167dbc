use mango_tcs::scan::{find_interesting_tcs_for_account, TcsCheck};
use mango_tcs::schedule::TcsCandidate;

#[test]
fn scan_reports_interesting_executable_tcs_and_errors() {
    let key = [2u8; 32];
    let checks = vec![
        TcsCheck { tcs_id: 1, interesting: Ok(true), max_volume: Ok(Some(50)) },
        TcsCheck { tcs_id: 2, interesting: Ok(false), max_volume: Err("never read".to_string()) },
        TcsCheck { tcs_id: 3, interesting: Ok(true), max_volume: Ok(None) },
        TcsCheck { tcs_id: 4, interesting: Err("no price".to_string()), max_volume: Ok(Some(9)) },
        TcsCheck { tcs_id: 5, interesting: Ok(true), max_volume: Err("no bank".to_string()) },
    ];
    let r = find_interesting_tcs_for_account(key, &checks);
    assert_eq!(
        r,
        vec![
            Ok(TcsCandidate { pubkey: key, tcs_id: 1, volume: 50 }),
            Err("no price".to_string()),
            Err("no bank".to_string()),
        ]
    );
}

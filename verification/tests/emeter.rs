use serde_json::Value;
use tplink_hs110::emeter::{reconcile, Quantity, Scale};
use tplink_hs110::error::TpLinkHs110Error;
use tplink_hs110::HS110;

fn json(text: &str) -> Value {
    serde_json::from_str(text).unwrap()
}

fn scale(source: &Value, by: Scale) -> Value {
    let reported = source.as_f64().unwrap_or(0f64);
    Value::from(match by {
        Scale::Thousandth => reported / 1000f64,
        Scale::Thousandfold => reported * 1000f64,
    })
}

fn reconciled(text: &str) -> Value {
    let mut readings = json(text);
    reconcile(&mut readings, &scale);
    readings
}

#[test]
fn thousandths_alone_gain_the_base_unit() {
    let readings = reconciled("{\"voltage_mv\":228603.726}");
    assert_eq!(readings, json("{\"voltage\":228.603726,\"voltage_mv\":228603.726}"));
    assert_eq!(readings["voltage"].as_f64(), Some(228.603726));
    assert_eq!(readings["voltage_mv"].as_f64(), Some(228603.726));
}

#[test]
fn base_unit_alone_gains_the_thousandths() {
    let readings = reconciled("{\"power\":0.770242}");
    assert_eq!(readings, json("{\"power\":0.770242,\"power_mw\":770.242}"));
    assert_eq!(readings["power_mw"].as_f64(), Some(770.242));
}

#[test]
fn a_quantity_under_both_names_is_left_alone() {
    let text = "{\"voltage\":1.5,\"voltage_mv\":99999.0}";
    assert_eq!(reconciled(text), json(text));
    let text = "{\"current\":\"x\",\"current_ma\":null,\"power\":0,\"power_mw\":0}";
    assert_eq!(reconciled(text), json(text));
}

#[test]
fn each_quantity_is_completed_by_itself() {
    let readings = reconciled(
        "{\"current_ma\":27.824,\"err_code\":0,\"power\":0.770242,\"total\":625.833,\
         \"total_wh\":1.0}",
    );
    assert_eq!(
        readings,
        json(
            "{\"current\":0.027824,\"current_ma\":27.824,\"err_code\":0,\"power\":0.770242,\
             \"power_mw\":770.242,\"total\":625.833,\"total_wh\":1.0}"
        )
    );
    assert!(readings.get("voltage").is_none());
    assert!(readings.get("voltage_mv").is_none());
}

#[test]
fn a_reading_of_the_first_revision_is_completed() {
    let readings = reconciled(
        "{\"current\":0.027824,\"err_code\":0,\"power\":0.770242,\"total\":625.833,\
         \"voltage\":228.603726}",
    );
    assert_eq!(
        readings,
        json(
            "{\"current\":0.027824,\"current_ma\":27.824,\"err_code\":0,\"power\":0.770242,\
             \"power_mw\":770.242,\"total\":625.833,\"total_wh\":625833.0,\
             \"voltage\":228.603726,\"voltage_mv\":228603.726}"
        )
    );
}

#[test]
fn a_reading_of_the_second_revision_is_completed() {
    let readings = reconciled(
        "{\"current_ma\":27,\"err_code\":0,\"power_mw\":770,\"total_wh\":625833,\
         \"voltage_mv\":228603}",
    );
    assert_eq!(readings["current"].as_f64(), Some(27.0 / 1000.0));
    assert_eq!(readings["power"].as_f64(), Some(770.0 / 1000.0));
    assert_eq!(readings["total"].as_f64(), Some(625833.0 / 1000.0));
    assert_eq!(readings["voltage"].as_f64(), Some(228603.0 / 1000.0));
    assert_eq!(readings["current_ma"], json("27"));
    assert_eq!(readings["err_code"], json("0"));
    assert_eq!(readings.as_object().unwrap().len(), 9);
}

#[test]
fn a_source_that_is_no_number_counts_as_zero() {
    assert_eq!(
        reconciled("{\"voltage\":\"high\"}"),
        json("{\"voltage\":\"high\",\"voltage_mv\":0.0}")
    );
    assert_eq!(reconciled("{\"total_wh\":null}"), json("{\"total\":0.0,\"total_wh\":null}"));
}

#[test]
fn nothing_is_derived_without_a_source() {
    for text in ["{}", "{\"err_code\":0}", "{\"voltage_v\":1,\"Power\":2}"] {
        assert_eq!(reconciled(text), json(text));
    }
}

#[test]
fn what_is_no_object_stays_as_it_is() {
    for text in ["null", "7", "\"voltage\"", "[\"voltage\"]", "[{\"voltage\":1}]", "true"] {
        assert_eq!(reconciled(text), json(text));
    }
}

#[test]
fn the_scale_is_asked_with_source_and_direction() {
    let mut readings = json("{\"voltage_mv\":5,\"current\":6,\"power\":7,\"power_mw\":8}");
    let label = |source: &Value, by: Scale| Value::from(format!("{source} {by:?}"));
    reconcile(&mut readings, &label);
    assert_eq!(
        readings,
        json(
            "{\"current\":6,\"current_ma\":\"6 Thousandfold\",\"power\":7,\"power_mw\":8,\
             \"voltage\":\"5 Thousandth\",\"voltage_mv\":5}"
        )
    );
}

#[test]
fn quantities_have_two_names() {
    let names: Vec<(&str, &str)> =
        [Quantity::Voltage, Quantity::Current, Quantity::Power, Quantity::Total]
            .iter()
            .map(|quantity| (quantity.base(), quantity.milli()))
            .collect();
    assert_eq!(
        names,
        vec![
            ("voltage", "voltage_mv"),
            ("current", "current_ma"),
            ("power", "power_mw"),
            ("total", "total_wh")
        ]
    );
}

#[test]
fn emeter_reply_is_read_and_completed() {
    let plug = HS110::new("10.0.0.5").unwrap();
    let reply = HS110::encrypt(
        "{\"emeter\":{\"get_realtime\":{\"current\":0.027824,\"err_code\":0,\
         \"power\":0.770242,\"total\":625.833,\"voltage\":228.603726}}}",
    );
    assert_eq!(
        plug.emeter(&reply, &scale).unwrap(),
        json(
            "{\"current\":0.027824,\"current_ma\":27.824,\"err_code\":0,\"power\":0.770242,\
             \"power_mw\":770.242,\"total\":625.833,\"total_wh\":625833.0,\
             \"voltage\":228.603726,\"voltage_mv\":228603.726}"
        )
    );
}

#[test]
fn emeter_reply_without_readings_is_an_error() {
    let plug = HS110::new("10.0.0.5").unwrap();
    let reply = HS110::encrypt("{\"emeter\":{\"err_code\":-1}}");
    match plug.emeter(&reply, &scale) {
        Err(TpLinkHs110Error::KeyIsNotAvailable { response, key }) => {
            assert_eq!(key, "get_realtime");
            assert_eq!(response, json("{\"emeter\":{\"err_code\":-1}}"));
        }
        other => panic!("unexpected result: {other:?}"),
    }
    assert!(matches!(
        plug.emeter(&[0, 0, 0], &scale),
        Err(TpLinkHs110Error::ShortEncryptedResponse(3))
    ));
    assert!(matches!(
        plug.emeter(&HS110::encrypt("{"), &scale),
        Err(TpLinkHs110Error::SerdeJson(_))
    ));
}

#[test]
fn completing_twice_changes_nothing_more() {
    for text in [
        "{\"voltage_mv\":228603.726}",
        "{\"power\":0.770242,\"current_ma\":27.824,\"err_code\":0}",
        "{\"total\":1,\"total_wh\":2}",
        "{}",
        "[1]",
    ] {
        let once = reconciled(text);
        let mut twice = once.clone();
        reconcile(&mut twice, &scale);
        assert_eq!(twice, once);
        for (base, milli) in [
            ("voltage", "voltage_mv"),
            ("current", "current_ma"),
            ("power", "power_mw"),
            ("total", "total_wh"),
        ] {
            assert_eq!(once.get(base).is_some(), once.get(milli).is_some());
        }
    }
}

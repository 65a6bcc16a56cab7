use rustbot::runescape::{
    ChartData, RSPrice, TimeStampValue, chart_config_json, chart_data, checked_chart_data, generate_chart_data,
    item_price_from_entry,
    labels_available, price_history_from_entry, price_history_path, price_path, price_text, resolve_alias, volume_text, wiki_image_url,
};

fn at(timestamp: TimeStampValue, price: u64) -> RSPrice {
    RSPrice { timestamp, price, volume: price * 10 }
}

#[test]
fn wiki_image_names() {
    assert_eq!(
        wiki_image_url("Zulrah's scales"),
        "https://oldschool.runescape.wiki/images/Zulrahs_scales.png"
    );
    assert_eq!(wiki_image_url("Rune-platebody (g)"), "https://oldschool.runescape.wiki/images/Rune_platebody_(g).png");
}

#[test]
fn prices_are_grouped_by_thousands() {
    assert_eq!(price_text(1234567), "1,234,567 gp");
    assert_eq!(price_text(999), "999 gp");
    assert_eq!(volume_text(1000), "1,000");
    assert_eq!(volume_text(0), "0");
}

#[test]
fn request_paths_are_encoded() {
    assert_eq!(price_path("Abyssal whip"), "/exchange/history/osrs/latest?name=Abyssal%20whip&lang=en");
    assert_eq!(price_history_path("Zulrah's scales"), "/exchange/history/osrs/last90d?name=Zulrah%27s%20scales&lang=en");
}

#[test]
fn answers_and_aliases() {
    assert_eq!(resolve_alias("whip".to_string(), Some(Some("Abyssal whip".to_string()))), "Abyssal whip");
    assert_eq!(resolve_alias("whip".to_string(), Some(None)), "whip");
    assert_eq!(resolve_alias("whip".to_string(), None), "whip");
    let price = item_price_from_entry(Some(("Whip".to_string(), at(TimeStampValue::Number(0), 5)))).unwrap();
    assert_eq!((price.item.as_str(), price.price, price.volume), ("Whip", 5, 50));
    assert!(item_price_from_entry(None).is_none());
    let history = price_history_from_entry(Some(("Whip".to_string(), vec![at(TimeStampValue::Number(0), 5)]))).unwrap();
    assert_eq!(history.history.len(), 1);
    assert!(price_history_from_entry(None).is_none());
}

#[test]
fn charts_take_the_last_days() {
    let history = vec![
        at(TimeStampValue::String("2024-01-01T00:00:00.000Z".to_string()), 1),
        at(TimeStampValue::Number(1_704_153_600_000), 2),
        at(TimeStampValue::String("2024-01-03".to_string()), 3),
    ];
    let chart: ChartData = chart_data(&history, 2, "Rune_platebody-g");
    assert_eq!(chart.labels, vec!["01-02".to_string(), "2024-01-03".to_string()]);
    assert_eq!(chart.prices, vec![2, 3]);
    assert_eq!(chart.volumes, vec![20, 30]);
    assert_eq!(chart.title, "Rune platebody g Price History");
    assert!(labels_available(&vec![at(TimeStampValue::Number(0), 1)], 10));
    assert!(!labels_available(&vec![at(TimeStampValue::Number(u64::MAX / 2), 1)], 10));
    assert!(labels_available(&vec![at(TimeStampValue::Number(u64::MAX / 2), 1), at(TimeStampValue::Number(0), 1)], 1));
    assert!(checked_chart_data(vec![at(TimeStampValue::Number(u64::MAX / 2), 1)], 10, "x".to_string()).is_none());
}

#[test]
fn chart_configuration_is_json() {
    let history = vec![
        at(TimeStampValue::String("2024-01-01T00:00:00.000Z".to_string()), 1500),
        at(TimeStampValue::Number(1_704_153_600_000), 2),
    ];
    let text = generate_chart_data(history, 10, "Zulrah's \"scales\"".to_string());
    let value: serde_json::Value = serde_json::from_str(&text).unwrap();
    assert_eq!(serde_json::to_string(&value).unwrap(), text);
    assert_eq!(value["type"], "line");
    assert_eq!(value["data"]["labels"][0], "2024-01-01");
    assert_eq!(value["data"]["labels"][1], "01-02");
    assert_eq!(value["data"]["datasets"][0]["label"], "Price (gp)");
    assert_eq!(value["data"]["datasets"][0]["data"][0], 1500);
    assert_eq!(value["data"]["datasets"][1]["label"], "Volume");
    assert_eq!(value["data"]["datasets"][1]["data"][1], 20);
    assert_eq!(value["options"]["plugins"]["title"]["text"], "Zulrah's \"scales\" Price History");
    assert_eq!(value["options"]["scales"]["yRight"]["position"], "right");
}

#[test]
fn empty_chart_configuration() {
    let text = checked_chart_data(vec![], 10, "Rune_2h-sword".to_string()).unwrap();
    let value: serde_json::Value = serde_json::from_str(&text).unwrap();
    assert_eq!(value["options"]["plugins"]["title"]["text"], "Rune 2h sword Price History");
    assert_eq!(value["data"]["labels"].as_array().unwrap().len(), 0);
    assert_eq!(value["data"]["datasets"][0]["data"].as_array().unwrap().len(), 0);
    assert_eq!(value["data"]["datasets"][1]["data"].as_array().unwrap().len(), 0);
    let chart = ChartData { labels: vec!["a\nb".to_string()], prices: vec![], volumes: vec![], title: "\u{1}".to_string() };
    let control = chart_config_json(&chart);
    assert!(control.contains(r#""labels":["a\nb"]"#));
    assert!(control.contains(r#""text":"\u0001""#));
}

#[test]
fn earlier_prices_do_not_change_the_chart() {
    let day = |i: u64| at(TimeStampValue::Number(1_704_067_200_000 + i * 86_400_000), 10 + i);
    let recent: Vec<RSPrice> = (0..3u64).map(day).collect();
    let mut longer = vec![at(TimeStampValue::Number(u64::MAX / 2), 999), at(TimeStampValue::String("2020-05-05T00".to_string()), 7)];
    longer.extend((0..3u64).map(day));
    let short = checked_chart_data(recent, 3, "Abyssal whip".to_string());
    let long = checked_chart_data(longer, 3, "Abyssal whip".to_string());
    assert!(short.is_some());
    assert_eq!(short, long);
}

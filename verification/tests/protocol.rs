use cilux::error::CiluxError;
use cilux::protocol::{
    expect_kind, BrokerError, BrokerResponse, BrokerResult, StatusResult, SystemReadSelector,
    TraceCategory, TraceStatusResult, TRACE_DEFAULT_MASK, TRACE_EXEC, TRACE_EXIT, TRACE_MODULE,
    TRACE_OOM,
};

#[test]
fn system_read_selectors_round_trip() {
    let selectors = SystemReadSelector::ALL
        .into_iter()
        .map(|selector| {
            let parsed = selector
                .as_str()
                .parse::<SystemReadSelector>()
                .expect("selector should parse");
            (selector, parsed)
        })
        .collect::<Vec<_>>();

    assert_eq!(
        selectors,
        SystemReadSelector::ALL
            .into_iter()
            .map(|selector| (selector, selector))
            .collect::<Vec<_>>()
    );
}

#[test]
fn trace_categories_round_trip_and_mask_conversion() {
    let categories = TraceCategory::ALL
        .into_iter()
        .map(|category| {
            let parsed = category
                .as_str()
                .parse::<TraceCategory>()
                .expect("category should parse");
            (category, parsed)
        })
        .collect::<Vec<_>>();

    assert_eq!(
        categories,
        TraceCategory::ALL
            .into_iter()
            .map(|category| (category, category))
            .collect::<Vec<_>>()
    );

    let mask = TraceCategory::mask_for(&[
        TraceCategory::SchedProcessExec,
        TraceCategory::Module,
        TraceCategory::SchedProcessExec,
    ]);
    assert_eq!(mask, TRACE_EXEC | TRACE_MODULE);
    assert_eq!(
        TraceCategory::from_mask(mask),
        vec![TraceCategory::SchedProcessExec, TraceCategory::Module]
    );
}

#[test]
fn trace_status_result_derives_enabled_and_supported_categories() {
    assert_eq!(
        TraceStatusResult::new(TRACE_EXEC | TRACE_MODULE, TRACE_DEFAULT_MASK, 3, 5, 16),
        TraceStatusResult {
            trace_mask: TRACE_EXEC | TRACE_MODULE,
            supported_mask: TRACE_DEFAULT_MASK,
            drop_count: 3,
            event_count: 5,
            ring_capacity: 16,
            enabled_categories: vec![TraceCategory::SchedProcessExec, TraceCategory::Module,],
            supported_categories: vec![
                TraceCategory::SchedProcessExec,
                TraceCategory::SchedProcessExit,
                TraceCategory::Module,
                TraceCategory::MarkVictim,
            ],
        }
    );
}

#[test]
fn selector_names_uris_and_descriptions() {
    assert_eq!(SystemReadSelector::ProcSoftirqs.as_str(), "proc_softirqs");
    assert_eq!(SystemReadSelector::Dmesg.resource_uri(), "cilux://system/dmesg");
    assert_eq!(SystemReadSelector::ProcIomem.resource_name(), "Guest Proc Iomem");
    assert_eq!(
        SystemReadSelector::ProcZoneinfo.resource_description(),
        "Current zone watermarks and page accounting from /proc/zoneinfo."
    );
    for selector in SystemReadSelector::ALL {
        assert_eq!(
            selector.resource_uri(),
            format!("cilux://system/{}", selector.as_str())
        );
    }
}

#[test]
fn unknown_names_are_refused_with_the_name() {
    let error = "proc_nothing".parse::<SystemReadSelector>().unwrap_err();
    assert_eq!(error.message(), "unknown system selector `proc_nothing`");
    let error = "Module".parse::<TraceCategory>().unwrap_err();
    assert_eq!(error.message(), "unknown trace category `Module`");
    assert!("".parse::<TraceCategory>().is_err());
}

#[test]
fn mask_bits_and_from_mask_ignore_unknown_bits() {
    assert_eq!(TraceCategory::MarkVictim.mask_bit(), TRACE_OOM);
    assert_eq!(TraceCategory::SchedProcessExit.mask_bit(), TRACE_EXIT);
    assert_eq!(TraceCategory::from_mask(0), vec![]);
    assert_eq!(TraceCategory::from_mask(0xffff_fff0), vec![]);
    assert_eq!(TraceCategory::from_mask(u32::MAX), TraceCategory::ALL.to_vec());
    assert_eq!(TraceCategory::mask_for(&[]), 0);
    // mask_for(from_mask(m)) keeps only the category bits of m.
    let m = 0x1234_5679;
    assert_eq!(TraceCategory::mask_for(&TraceCategory::from_mask(m)), m & TRACE_DEFAULT_MASK);
}

#[test]
fn into_result_and_expect_kind() {
    let ok = BrokerResponse::Success {
        result: BrokerResult::BufferClear(StatusResult { ok: true }),
    };
    match ok.into_result() {
        Ok(BrokerResult::BufferClear(status)) => assert!(status.ok),
        _ => panic!("expected the buffer clear result"),
    }

    let failed = BrokerResponse::Error {
        error: BrokerError {
            code: "request_failed".to_string(),
            message: "unsupported trace categories requested: module".to_string(),
        },
    };
    let error = failed.into_result().unwrap_err();
    assert_eq!(
        error.message(),
        "request_failed: unsupported trace categories requested: module"
    );

    let picked = expect_kind(
        BrokerResponse::Success { result: BrokerResult::BufferClear(StatusResult { ok: false }) },
        |result| match result {
            BrokerResult::BufferClear(status) => Some(status.ok),
            _ => None,
        },
    );
    assert_eq!(picked, Ok(false));

    let wrong = expect_kind(
        BrokerResponse::Success { result: BrokerResult::BufferClear(StatusResult { ok: true }) },
        |result| match result {
            BrokerResult::Health(report) => Some(report),
            _ => None,
        },
    );
    let error = wrong.unwrap_err();
    assert_eq!(error, CiluxError::UnexpectedResultKind);
    assert_eq!(error.message(), "broker returned an unexpected result kind");
}

#[test]
fn resource_texts_follow_the_selector_names() {
    for selector in SystemReadSelector::ALL {
        let words = selector
            .as_str()
            .split('_')
            .map(|w| {
                let mut cs = w.chars();
                let first = cs.next().unwrap().to_ascii_uppercase();
                std::iter::once(first).chain(cs).collect::<String>()
            })
            .collect::<Vec<_>>()
            .join(" ");
        assert_eq!(selector.resource_name(), format!("Guest {words}"));
        if selector != SystemReadSelector::Dmesg {
            let file = format!("/proc/{}", &selector.as_str()[5..]);
            assert!(selector.resource_description().ends_with(&format!("{file}.")));
        }
    }
}

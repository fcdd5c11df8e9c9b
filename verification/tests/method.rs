use request_runner::{DecodeError, HttpMethod};

const ALL: [HttpMethod; 4] = [HttpMethod::GET, HttpMethod::POST, HttpMethod::PUT, HttpMethod::PATCH];

#[test]
fn decode_reads_the_four_names() {
    assert_eq!(HttpMethod::decode("GET"), Ok(HttpMethod::GET));
    assert_eq!(HttpMethod::decode("POST"), Ok(HttpMethod::POST));
    assert_eq!(HttpMethod::decode("PUT"), Ok(HttpMethod::PUT));
    assert_eq!(HttpMethod::decode("PATCH"), Ok(HttpMethod::PATCH));
}

#[test]
fn decode_refuses_other_names() {
    for text in ["DELETE", "HEAD", "OPTIONS", "get", "Get", "", " GET", "GET ", "GETS", "PU", "\"GET\""] {
        assert_eq!(HttpMethod::decode(text), Err(DecodeError::UnknownMethod), "{:?}", text);
    }
}

#[test]
fn names_are_upper_case() {
    assert_eq!(HttpMethod::GET.as_str(), "GET");
    assert_eq!(HttpMethod::POST.as_str(), "POST");
    assert_eq!(HttpMethod::PUT.as_str(), "PUT");
    assert_eq!(HttpMethod::PATCH.as_str(), "PATCH");
    assert_eq!(HttpMethod::PATCH.encode(), String::from("PATCH"));
}

#[test]
fn method_round_trips_through_its_name() {
    for method in ALL {
        assert_eq!(HttpMethod::decode(&method.encode()), Ok(method));
        assert_eq!(HttpMethod::decode(method.as_str()), Ok(method));
    }
}

#[test]
fn name_round_trips_through_the_method() {
    for text in ["GET", "POST", "PUT", "PATCH"] {
        let method = HttpMethod::decode(text).unwrap();
        assert_eq!(method.encode(), text);
    }
}

#[test]
fn names_are_pairwise_different() {
    for (i, a) in ALL.iter().enumerate() {
        for (j, b) in ALL.iter().enumerate() {
            assert_eq!(a.as_str() == b.as_str(), i == j);
        }
    }
}

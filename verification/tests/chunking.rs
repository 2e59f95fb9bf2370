use text_embedding::chunking::{chunk, chunk_input_tokens};
use text_embedding::config::ModelConfig;
use text_embedding::error::EmbedError;

fn numbered(len: u32) -> Vec<u32> {
    (0..len).map(|i| 1000 + i).collect()
}

fn join_steps(chunks: &[Vec<u32>], step: usize) -> Vec<u32> {
    let mut joined = Vec::new();
    for (i, c) in chunks.iter().enumerate() {
        if i + 1 == chunks.len() {
            joined.extend_from_slice(c);
        } else {
            joined.extend_from_slice(&c[..step]);
        }
    }
    joined
}

#[test]
fn twenty_five_tokens_in_windows_of_ten() {
    let tokens = numbered(25);
    let chunks = chunk_input_tokens(&tokens, 10, 1);
    assert_eq!(chunks.len(), 3);
    assert_eq!(chunks[0], tokens[0..10].to_vec());
    assert_eq!(chunks[1], tokens[9..19].to_vec());
    assert_eq!(chunks[2], tokens[18..25].to_vec());
    assert_eq!(chunks[0][9], chunks[1][0]);
    assert_eq!(chunks[1][9], chunks[2][0]);
}

#[test]
fn short_sequence_is_one_chunk() {
    let tokens = numbered(5);
    assert_eq!(chunk_input_tokens(&tokens, 10, 1), vec![tokens.clone()]);
    assert_eq!(chunk_input_tokens(&tokens, 10, 5), vec![tokens.clone()]);
    assert_eq!(chunk_input_tokens(&tokens, 5, 0), vec![tokens.clone()]);
    let nine = numbered(9);
    assert_eq!(chunk_input_tokens(&nine, 10, 1), vec![nine.clone()]);
}

#[test]
fn one_token_is_one_chunk_for_every_overlap() {
    let tokens = vec![7u32];
    for overlap in 0..10 {
        assert_eq!(chunk_input_tokens(&tokens, 10, overlap), vec![vec![7u32]]);
    }
}

#[test]
fn full_window_longer_than_a_step_gets_a_second_chunk() {
    let tokens = numbered(10);
    let chunks = chunk_input_tokens(&tokens, 10, 1);
    assert_eq!(chunks, vec![tokens.clone(), vec![tokens[9]]]);
}

#[test]
fn no_tokens_no_chunks() {
    let chunks = chunk_input_tokens(&[], 10, 1);
    assert!(chunks.is_empty());
    assert_eq!(chunk(&[], 10, 1), Ok(vec![]));
}

#[test]
fn without_overlap_the_windows_tile_the_sequence() {
    let tokens = numbered(7);
    let chunks = chunk_input_tokens(&tokens, 3, 0);
    assert_eq!(
        chunks,
        vec![tokens[0..3].to_vec(), tokens[3..6].to_vec(), tokens[6..7].to_vec()]
    );
}

#[test]
fn exact_multiple_has_no_empty_tail() {
    let tokens = numbered(6);
    let chunks = chunk_input_tokens(&tokens, 3, 0);
    assert_eq!(chunks, vec![tokens[0..3].to_vec(), tokens[3..6].to_vec()]);
}

#[test]
fn large_overlap_cuts_several_trailing_windows_short() {
    let tokens = numbered(6);
    let chunks = chunk_input_tokens(&tokens, 4, 3);
    assert_eq!(
        chunks,
        vec![
            tokens[0..4].to_vec(),
            tokens[1..5].to_vec(),
            tokens[2..6].to_vec(),
            tokens[3..6].to_vec(),
            tokens[4..6].to_vec(),
            tokens[5..6].to_vec(),
        ]
    );
}

#[test]
fn window_as_long_as_the_machine_allows() {
    let tokens = numbered(4);
    assert_eq!(chunk_input_tokens(&tokens, usize::MAX, 0), vec![tokens.clone()]);
    assert_eq!(
        chunk_input_tokens(&tokens, usize::MAX, usize::MAX - 1),
        vec![
            tokens[0..4].to_vec(),
            tokens[1..4].to_vec(),
            tokens[2..4].to_vec(),
            tokens[3..4].to_vec()
        ]
    );
    let chunks = chunk_input_tokens(&tokens, usize::MAX - 1, usize::MAX - 3);
    assert_eq!(chunks, vec![tokens[0..4].to_vec(), tokens[2..4].to_vec()]);
}

#[test]
fn every_chunk_is_bounded_and_not_empty() {
    for len in 0..40u32 {
        let tokens = numbered(len);
        for max_seq_len in 1..8usize {
            for overlap in 0..max_seq_len {
                let chunks = chunk_input_tokens(&tokens, max_seq_len, overlap);
                let step = max_seq_len - overlap;
                assert_eq!(chunks.len(), (tokens.len() + step - 1) / step);
                for (i, c) in chunks.iter().enumerate() {
                    assert!(!c.is_empty());
                    assert!(c.len() <= max_seq_len);
                    let start = i * step;
                    let end = (start + max_seq_len).min(tokens.len());
                    assert_eq!(c, &tokens[start..end].to_vec());
                }
            }
        }
    }
}

#[test]
fn steps_of_the_chunks_rebuild_the_tokens() {
    for len in 0..40u32 {
        let tokens = numbered(len);
        for max_seq_len in 1..8usize {
            for overlap in 0..max_seq_len {
                let chunks = chunk_input_tokens(&tokens, max_seq_len, overlap);
                assert_eq!(join_steps(&chunks, max_seq_len - overlap), tokens);
            }
        }
    }
}

#[test]
fn every_token_is_found_in_its_chunk() {
    let tokens = numbered(25);
    let chunks = chunk_input_tokens(&tokens, 10, 1);
    for p in 0..25usize {
        assert_eq!(chunks[p / 9][p % 9], tokens[p]);
    }
}

#[test]
fn adjacent_chunks_share_the_overlap() {
    let tokens = numbered(25);
    let chunks = chunk_input_tokens(&tokens, 10, 3);
    // starts 0, 7, 14, 21: windows [0,10) [7,17) [14,24) [21,25)
    assert_eq!(chunks.len(), 4);
    for i in 0..3 {
        assert_eq!(chunks[i].len(), 10);
        assert_eq!(chunks[i][7..].to_vec(), chunks[i + 1][..3].to_vec());
    }
    assert_eq!(chunks[3].len(), 4);
    let cut = chunk_input_tokens(&tokens[..23], 10, 3);
    // windows [0,10) [7,17) [14,23) [21,23): the third is cut short and shares two
    assert_eq!(cut[2].len(), 9);
    assert_eq!(cut[3], tokens[21..23].to_vec());
    assert_eq!(cut[2][7..].to_vec(), cut[3][..2].to_vec());
}

#[test]
fn overlap_not_below_window_is_invalid() {
    let tokens = numbered(25);
    assert_eq!(chunk(&tokens, 10, 10), Err(EmbedError::InvalidConfig));
    assert_eq!(chunk(&tokens, 10, 11), Err(EmbedError::InvalidConfig));
    assert_eq!(chunk(&tokens, 0, 0), Err(EmbedError::InvalidConfig));
    assert_eq!(chunk(&[], 3, 7), Err(EmbedError::InvalidConfig));
    assert_eq!(chunk(&tokens, 1, usize::MAX), Err(EmbedError::InvalidConfig));
}

#[test]
fn valid_parameters_give_the_chunks() {
    let tokens = numbered(25);
    assert_eq!(chunk(&tokens, 10, 1), Ok(chunk_input_tokens(&tokens, 10, 1)));
    assert_eq!(chunk(&tokens, 10, 9).map(|c| c.len()), Ok(25));
}

#[test]
fn overlap_is_a_tenth_of_the_window() {
    let overlap = |max_seq_len: usize| ModelConfig { max_seq_len, hidden_size: 4 }.overlap();
    assert_eq!(overlap(512), 51);
    assert_eq!(overlap(10), 1);
    assert_eq!(overlap(9), 0);
    assert_eq!(overlap(19), 1);
    assert_eq!(overlap(20), 2);
    assert_eq!(overlap(0), 0);
    assert_eq!(overlap(usize::MAX), usize::MAX / 10);
}

#[test]
fn config_cuts_with_its_own_overlap() {
    let tokens = numbered(25);
    let config = ModelConfig { max_seq_len: 10, hidden_size: 4 };
    assert_eq!(config.chunk_tokens(&tokens), Ok(chunk_input_tokens(&tokens, 10, 1)));
    let wide = ModelConfig { max_seq_len: 512, hidden_size: 4 };
    assert_eq!(wide.chunk_tokens(&tokens), Ok(vec![tokens.clone()]));
    let narrow = ModelConfig { max_seq_len: 1, hidden_size: 4 };
    assert_eq!(narrow.chunk_tokens(&tokens).map(|c| c.len()), Ok(25));
}

#[test]
fn window_of_zero_is_an_invalid_config() {
    let config = ModelConfig { max_seq_len: 0, hidden_size: 4 };
    assert_eq!(config.chunk_tokens(&numbered(3)), Err(EmbedError::InvalidConfig));
    assert_eq!(config.chunk_tokens(&[]), Err(EmbedError::InvalidConfig));
}
